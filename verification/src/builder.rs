//! The playlist builder: one run, from the candidate files to the document.
//!
//! The builder decides and the caller acts. It shuffles the candidates,
//! names the file to probe next, takes the outcome of each probe and samples
//! a clip for it, and hands out the document once every file has its clip.

use crate::config::RunConfiguration;
use crate::edl::{document, encode, models};
use crate::entry::{EntryModel, VideoEntry};
use crate::probe::{resolve_duration, resolved_duration, ProbeError};
use crate::sampler::{sample, valid_start};
use crate::shuffle::{permutation_of, shuffle, texts};
use rand::rngs::ThreadRng;
use vstd::prelude::*;

verus! {

/// What a [`PlaylistBuilder`] stands for: the paths in playing order, the
/// clip length of the run, and the entries made so far.
pub struct BuilderModel {
    pub paths: Seq<Seq<char>>,
    pub clip_length: nat,
    pub entries: Seq<EntryModel>,
}

impl BuilderModel {
    /// There is a path at least and the clip length is positive; the entries
    /// made so far are those of the first paths, in order, each with the
    /// run's clip length and a clip window inside its video.
    pub open spec fn well_formed(self) -> bool {
        &&& self.paths.len() > 0
        &&& self.clip_length > 0
        &&& self.entries.len() <= self.paths.len()
        &&& forall|i: int|
            0 <= i < self.entries.len() ==> {
                &&& (#[trigger] self.entries[i]).path == self.paths[i]
                &&& self.entries[i].clip_length == self.clip_length
                &&& self.entries[i].well_formed()
            }
    }

    /// Whether a path still waits for its probe.
    pub open spec fn pending(self) -> bool {
        self.entries.len() < self.paths.len()
    }

    /// The path whose probe is taken next.
    pub open spec fn next_path(self) -> Seq<char>
        recommends
            self.pending(),
    {
        self.paths[self.entries.len() as int]
    }

    /// The state after a probe of the next path gave `duration` seconds and
    /// the clip was set to start at `clip_start`.
    pub open spec fn recorded(self, duration: nat, clip_start: nat) -> BuilderModel
        recommends
            self.pending(),
    {
        BuilderModel {
            entries: self.entries.push(
                EntryModel {
                    path: self.next_path(),
                    resolved_duration: duration,
                    clip_start,
                    clip_length: self.clip_length,
                },
            ),
            ..self
        }
    }
}

/// The state of one run. Every value of this type is well formed.
#[derive(Debug)]
pub struct PlaylistBuilder {
    paths: Vec<String>,
    clip_length_seconds: u64,
    entries: Vec<VideoEntry>,
}

impl View for PlaylistBuilder {
    type V = BuilderModel;

    closed spec fn view(&self) -> BuilderModel {
        BuilderModel {
            paths: texts(self.paths@),
            clip_length: self.clip_length_seconds as nat,
            entries: models(self.entries@),
        }
    }
}

impl PlaylistBuilder {
    #[verifier::type_invariant]
    closed spec fn consistent(&self) -> bool {
        self@.well_formed()
    }

    /// Starts a run over `candidates`: shuffles them into the playing order.
    /// `None` where there is no candidate, and only there.
    pub fn start(
        candidates: Vec<String>,
        configuration: &RunConfiguration,
        rng: &mut ThreadRng,
    ) -> (started: Option<PlaylistBuilder>)
        ensures
            started is Some <==> candidates@.len() > 0,
            started matches Some(builder) ==> {
                &&& builder@.well_formed()
                &&& permutation_of(builder@.paths, texts(candidates@))
                &&& builder@.paths.len() == candidates@.len()
                &&& builder@.paths.to_set() == texts(candidates@).to_set()
                &&& builder@.clip_length == configuration@.clip_length
                &&& builder@.entries.len() == 0
            },
    {
        if candidates.len() == 0 {
            return None;
        }
        let mut paths = candidates;
        shuffle(&mut paths, rng);
        let clip_length_seconds = configuration.clip_length_seconds();
        Some(PlaylistBuilder { paths, clip_length_seconds, entries: Vec::new() })
    }

    /// The file to probe next; `None` once every file has its clip.
    pub fn next_path(&self) -> (next: Option<&str>)
        ensures
            self@.well_formed(),
            match next {
                Some(path) => self@.pending() && path@ == self@.next_path(),
                None => !self@.pending(),
            },
    {
        proof {
            use_type_invariant(self);
        }
        let done = self.entries.len();
        if done < self.paths.len() {
            Some(self.paths[done].as_str())
        } else {
            None
        }
    }

    /// Takes the outcome of the probe of the next file: resolves its
    /// duration, samples a clip and adds the entry. Returns the start of the
    /// clip. Where no file waits, nothing changes and `None` is returned.
    pub fn record_probe(&mut self, probe: &Result<u64, ProbeError>, rng: &mut ThreadRng) -> (start:
        Option<u64>)
        ensures
            final(self)@.well_formed(),
            match start {
                Some(clip_start) => {
                    &&& old(self)@.pending()
                    &&& valid_start(
                        resolved_duration(*probe) as nat,
                        old(self)@.clip_length,
                        clip_start as nat,
                    )
                    &&& final(self)@ == old(self)@.recorded(
                        resolved_duration(*probe) as nat,
                        clip_start as nat,
                    )
                },
                None => !old(self)@.pending() && final(self)@ == old(self)@,
            },
    {
        proof {
            use_type_invariant(&*self);
        }
        let done = self.entries.len();
        if done >= self.paths.len() {
            return None;
        }
        let duration = resolve_duration(probe);
        let clip_start = sample(duration, self.clip_length_seconds, rng);
        let path = self.paths[done].clone();
        let entry = VideoEntry::new(path, duration, clip_start, self.clip_length_seconds).unwrap();
        // The entries leave the builder while they grow: a push may unwind,
        // and the builder must be consistent whenever it can be seen.
        let mut entries: Vec<VideoEntry> = Vec::new();
        std::mem::swap(&mut self.entries, &mut entries);
        entries.push(entry);
        proof {
            let before = old(self)@;
            let after = before.recorded(duration as nat, clip_start as nat);
            assert(models(entries@) =~= after.entries);
            assert forall|i: int| 0 <= i < after.entries.len() implies {
                &&& (#[trigger] after.entries[i]).path == before.paths[i]
                &&& after.entries[i].clip_length == before.clip_length
                &&& after.entries[i].well_formed()
            } by {
                if i < done {
                    assert(after.entries[i] == before.entries[i]);
                }
            }
        }
        std::mem::swap(&mut self.entries, &mut entries);
        Some(clip_start)
    }

    /// The entries made so far, in playing order.
    pub fn entries(&self) -> (entries: &Vec<VideoEntry>)
        ensures
            models(entries@) == self@.entries,
            self@.well_formed(),
    {
        proof {
            use_type_invariant(self);
        }
        &self.entries
    }

    /// The document of the run, once every file has its clip; `None` while
    /// a file still waits for its probe.
    pub fn finish(&self) -> (written: Option<String>)
        ensures
            match written {
                Some(text) => !self@.pending() && text@ == document(self@.entries),
                None => self@.pending(),
            },
    {
        proof {
            use_type_invariant(self);
        }
        if self.entries.len() < self.paths.len() {
            None
        } else {
            Some(encode(&self.entries))
        }
    }
}

} // verus!
