//! What a run is given: the folder of videos and the length of every clip.

use vstd::prelude::*;
use vstd::string::*;

verus! {

/// What a [`RunConfiguration`] stands for.
pub struct ConfigurationModel {
    pub directory: Seq<char>,
    pub clip_length: nat,
}

/// The folder to preview and the clip length in seconds, which is positive
/// in every value of this type.
#[derive(Debug)]
pub struct RunConfiguration {
    directory: String,
    clip_length_seconds: u64,
}

impl View for RunConfiguration {
    type V = ConfigurationModel;

    closed spec fn view(&self) -> ConfigurationModel {
        ConfigurationModel {
            directory: self.directory@,
            clip_length: self.clip_length_seconds as nat,
        }
    }
}

impl RunConfiguration {
    #[verifier::type_invariant]
    closed spec fn clip_length_positive(&self) -> bool {
        self.clip_length_seconds > 0
    }

    /// The configuration of a run over `directory` with clips of
    /// `clip_length_seconds` seconds; `None` for a clip length of zero.
    pub fn new(directory: String, clip_length_seconds: u64) -> (made: Option<RunConfiguration>)
        ensures
            made is Some <==> clip_length_seconds > 0,
            made matches Some(configuration) ==> configuration@ == (ConfigurationModel {
                directory: directory@,
                clip_length: clip_length_seconds as nat,
            }),
    {
        if clip_length_seconds > 0 {
            Some(RunConfiguration { directory, clip_length_seconds })
        } else {
            None
        }
    }

    /// The folder of videos.
    pub fn directory(&self) -> (directory: &str)
        ensures
            directory@ == self@.directory,
    {
        self.directory.as_str()
    }

    /// The length of every clip in seconds.
    pub fn clip_length_seconds(&self) -> (seconds: u64)
        ensures
            seconds == self@.clip_length,
            seconds > 0,
    {
        proof {
            use_type_invariant(self);
        }
        self.clip_length_seconds
    }
}

} // verus!
