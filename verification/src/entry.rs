//! One clip of the playlist: a video, and the window of it that is played.

use crate::sampler::valid_start;
use vstd::prelude::*;

verus! {

/// What a [`VideoEntry`] stands for.
pub struct EntryModel {
    pub path: Seq<char>,
    pub resolved_duration: nat,
    pub clip_start: nat,
    pub clip_length: nat,
}

impl EntryModel {
    /// The clip window lies inside the video: the clip ends no later than
    /// the video does, and starts at 0 where the video is shorter than it.
    pub open spec fn well_formed(self) -> bool {
        valid_start(self.resolved_duration, self.clip_length, self.clip_start)
    }
}

/// A video file with its resolved duration and the clip chosen from it.
/// The clip window of every value of this type lies inside the video.
#[derive(Debug)]
pub struct VideoEntry {
    path: String,
    resolved_duration_seconds: u64,
    clip_start_seconds: u64,
    clip_length_seconds: u64,
}

impl View for VideoEntry {
    type V = EntryModel;

    closed spec fn view(&self) -> EntryModel {
        EntryModel {
            path: self.path@,
            resolved_duration: self.resolved_duration_seconds as nat,
            clip_start: self.clip_start_seconds as nat,
            clip_length: self.clip_length_seconds as nat,
        }
    }
}

impl VideoEntry {
    #[verifier::type_invariant]
    closed spec fn window_inside_video(&self) -> bool {
        self@.well_formed()
    }

    /// Makes the entry of a clip that starts at `clip_start_seconds`, where
    /// that start is valid for the video; `None` where it is not.
    pub fn new(
        path: String,
        resolved_duration_seconds: u64,
        clip_start_seconds: u64,
        clip_length_seconds: u64,
    ) -> (made: Option<VideoEntry>)
        ensures
            made is Some <==> valid_start(
                resolved_duration_seconds as nat,
                clip_length_seconds as nat,
                clip_start_seconds as nat,
            ),
            made matches Some(entry) ==> entry@ == (EntryModel {
                path: path@,
                resolved_duration: resolved_duration_seconds as nat,
                clip_start: clip_start_seconds as nat,
                clip_length: clip_length_seconds as nat,
            }),
    {
        let latest = if resolved_duration_seconds >= clip_length_seconds {
            resolved_duration_seconds - clip_length_seconds
        } else {
            0
        };
        if clip_start_seconds <= latest {
            Some(
                VideoEntry {
                    path,
                    resolved_duration_seconds,
                    clip_start_seconds,
                    clip_length_seconds,
                },
            )
        } else {
            None
        }
    }

    /// The path of the video.
    pub fn path(&self) -> (path: &str)
        ensures
            path@ == self@.path,
    {
        self.path.as_str()
    }

    /// The duration of the video in seconds, as probed or as assumed.
    pub fn resolved_duration_seconds(&self) -> (seconds: u64)
        ensures
            seconds == self@.resolved_duration,
    {
        self.resolved_duration_seconds
    }

    /// The second of the video at which the clip starts.
    pub fn clip_start_seconds(&self) -> (seconds: u64)
        ensures
            seconds == self@.clip_start,
            self@.well_formed(),
    {
        proof {
            use_type_invariant(self);
        }
        self.clip_start_seconds
    }

    /// The length of the clip in seconds.
    pub fn clip_length_seconds(&self) -> (seconds: u64)
        ensures
            seconds == self@.clip_length,
    {
        self.clip_length_seconds
    }
}

} // verus!
