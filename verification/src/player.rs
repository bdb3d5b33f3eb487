//! The playback engine: owns at most one decode session at a time and
//! answers the queries a user interface polls, never failing on "nothing
//! loaded". The sample-producing side drives [`Player::next_sample`]; any
//! controlling side calls the query and command methods.

use crate::decoder::{spec_error_class, spec_open_result, DecoderError, SymphoniaDecoder};
use crate::timebase::spec_duration_millis;
use vstd::prelude::*;

verus! {

/// The playback engine. The sink of the audio backend is modelled by its
/// two observable facts: whether it is paused, and whether it has run out
/// of samples (no session, or the session's stream ended).
pub struct Player {
    sink_paused: bool,
    decoder: Option<SymphoniaDecoder>,
}

impl Player {
    /// Every held session is a well-formed decoder.
    pub open spec fn wf(self) -> bool {
        self.spec_session() matches Some(d) ==> d.wf()
    }

    pub closed spec fn spec_paused(self) -> bool {
        self.sink_paused
    }

    pub closed spec fn spec_session(self) -> Option<SymphoniaDecoder> {
        self.decoder
    }

    /// The sink has no more samples: nothing is loaded.
    pub open spec fn spec_empty(self) -> bool {
        self.spec_session() is None
    }

    /// Sound is coming out: a session is loaded and not paused.
    pub open spec fn spec_is_playing(self) -> bool {
        !self.spec_paused() && !self.spec_empty()
    }

    /// The last song ran out on its own: the sink is drained but was not
    /// paused. The signal a playlist uses to start the next song.
    pub open spec fn spec_finished(self) -> bool {
        self.spec_empty() && !self.spec_paused()
    }

    /// The duration reported to the interface: the session's total
    /// duration, or zero when nothing is loaded.
    pub open spec fn spec_duration(self) -> u64 {
        match self.spec_session() {
            Some(d) => d.spec_control().spec_total_duration(),
            None => 0,
        }
    }

    /// The elapsed time reported to the interface: the session's elapsed
    /// time, or zero when nothing is loaded.
    pub open spec fn spec_elapsed(self) -> u64 {
        match self.spec_session() {
            Some(d) => d.spec_control().spec_time_elapsed(),
            None => 0,
        }
    }

    /// A fresh engine: drained and paused, so that it neither plays nor
    /// reports a finished song.
    pub fn new() -> (r: Player)
        ensures
            r.wf(),
            r.spec_paused(),
            r.spec_empty(),
    {
        Self::default()
    }

    /// Loads and plays the file held in `data`, replacing anything that
    /// was playing. Loading succeeds exactly when the bytes open
    /// (`spec_open_result`), and the new session then governs every
    /// query; on failure the error's class is the one the bytes name and
    /// the previous session, if any, is kept untouched.
    pub fn play_file(&mut self, data: Vec<u8>) -> (r: Result<(), DecoderError>)
        requires
            old(self).wf(),
        ensures
            final(self).wf(),
            (r is Ok) <==> spec_open_result(data@) is Ok,
            r matches Ok(()) ==> {
                &&& !final(self).spec_paused()
                &&& !final(self).spec_empty()
                &&& final(self).spec_elapsed() == 0
                &&& final(self).spec_session() matches Some(d) && d.spec_offset() == 0
                    && d.spec_control().spec_seek_request() is None
                    && final(self).spec_duration() == d.spec_control().spec_total_duration()
                    && final(self).spec_duration() == spec_duration_millis(
                    d.spec_track().n_frames,
                    d.spec_track().time_base,
                ) && spec_open_result(data@) == Ok::<
                    crate::timebase::TrackInfo,
                    crate::decoder::OpenFailure,
                >(d.spec_track())
            },
            r matches Err(e) ==> spec_open_result(data@) matches Err(f) && spec_error_class(e)
                == f,
            r is Err ==> *final(self) == *old(self),
    {
        match SymphoniaDecoder::new(data) {
            Ok(decoder) => {
                self.decoder = Some(decoder);
                self.sink_paused = false;
                Ok(())
            },
            Err(e) => Err(e),
        }
    }

    /// Requests a seek on the current session; the target time is reported
    /// as elapsed at once. Does nothing when nothing is loaded.
    pub fn seek(&mut self, time: u64)
        requires
            old(self).wf(),
        ensures
            final(self).wf(),
            final(self).spec_paused() == old(self).spec_paused(),
            final(self).spec_empty() == old(self).spec_empty(),
            final(self).spec_duration() == old(self).spec_duration(),
            !old(self).spec_empty() ==> {
                &&& final(self).spec_elapsed() == time
                &&& final(self).spec_session() matches Some(d)
                    && d.spec_control().spec_seek_request() == Some(time)
            },
            old(self).spec_empty() ==> *final(self) == *old(self),
    {
        if let Some(decoder) = &mut self.decoder {
            decoder.request_seek(time);
        }
    }

    /// Stops sound without dropping the session or its position.
    pub fn pause(&mut self)
        requires
            old(self).wf(),
        ensures
            final(self).wf(),
            final(self).spec_paused(),
            final(self).spec_session() == old(self).spec_session(),
    {
        self.sink_paused = true;
    }

    /// Resumes after a pause, from the position where sound stopped.
    /// With nothing loaded this is a no-op: the engine stays paused, so
    /// an idle engine never starts reporting a finished song.
    pub fn resume(&mut self)
        requires
            old(self).wf(),
        ensures
            final(self).wf(),
            final(self).spec_session() == old(self).spec_session(),
            !old(self).spec_empty() ==> !final(self).spec_paused(),
            old(self).spec_empty() ==> *final(self) == *old(self),
    {
        if !self.empty() {
            self.sink_paused = false;
        }
    }

    /// Drops the session and leaves the engine paused and drained, the
    /// state a fresh engine starts in.
    pub fn stop(&mut self)
        ensures
            final(self).wf(),
            final(self).spec_paused(),
            final(self).spec_empty(),
    {
        self.replace_sink();
    }

    fn replace_sink(&mut self)
        ensures
            final(self).wf(),
            final(self).spec_paused(),
            final(self).spec_empty(),
    {
        self.decoder = None;
        self.sink_paused = true;
    }

    /// Duration of the current song; zero when there is none.
    pub fn song_duration(&self) -> (r: u64)
        ensures
            r == self.spec_duration(),
    {
        match &self.decoder {
            Some(decoder) => decoder.get_control().total_duration(),
            None => 0,
        }
    }

    /// Elapsed time in the current song; zero when there is none.
    pub fn time_elapsed(&self) -> (r: u64)
        ensures
            r == self.spec_elapsed(),
    {
        match &self.decoder {
            Some(decoder) => decoder.get_control().time_elapsed(),
            None => 0,
        }
    }

    pub fn is_playing(&self) -> (r: bool)
        ensures
            r == self.spec_is_playing(),
    {
        !self.sink_paused && !self.empty()
    }

    /// True exactly when the sink has drained without being paused: the
    /// song finished on its own and a follower may be started.
    pub fn song_finished_playing(&self) -> (r: bool)
        ensures
            r == self.spec_finished(),
    {
        self.empty() && !self.sink_paused
    }

    /// The channel count of the session's current block, for the audio
    /// backend; `None` when nothing is loaded.
    pub fn channels(&self) -> (r: Option<u16>)
        ensures
            r == match self.spec_session() {
                Some(d) => Some(d.spec_channels()),
                None => None::<u16>,
            },
    {
        match &self.decoder {
            Some(decoder) => Some(decoder.channels()),
            None => None,
        }
    }

    /// The sample rate of the session's current block, for the audio
    /// backend; `None` when nothing is loaded.
    pub fn sample_rate(&self) -> (r: Option<u32>)
        ensures
            r == match self.spec_session() {
                Some(d) => Some(d.spec_rate()),
                None => None::<u32>,
            },
    {
        match &self.decoder {
            Some(decoder) => Some(decoder.sample_rate()),
            None => None,
        }
    }

    /// The length of the session's current block, for the audio backend;
    /// `None` when nothing is loaded.
    pub fn current_frame_len(&self) -> (r: Option<usize>)
        ensures
            r == match self.spec_session() {
                Some(d) => Some(d.spec_buffer().len() as usize),
                None => None::<usize>,
            },
    {
        match &self.decoder {
            Some(decoder) => decoder.current_frame_len(),
            None => None,
        }
    }

    pub fn empty(&self) -> (r: bool)
        ensures
            r == self.spec_empty(),
    {
        match &self.decoder {
            Some(_) => false,
            None => true,
        }
    }

    /// One step of the producing side: the next sample of the current
    /// session. When the session's stream has ended (or none is loaded)
    /// the result is `None` and the engine is drained from then on.
    pub fn next_sample(&mut self) -> (r: Option<i16>)
        requires
            old(self).wf(),
        ensures
            final(self).wf(),
            final(self).spec_paused() == old(self).spec_paused(),
            r is None <==> final(self).spec_empty(),
            old(self).spec_empty() ==> r is None && *final(self) == *old(self),
            final(self).spec_empty() ==> final(self).spec_elapsed() == 0,
            r is Some ==> final(self).spec_duration() == old(self).spec_duration(),
            old(self).spec_session() matches Some(d) ==> (d.spec_offset()
                < d.spec_buffer().len() ==> r == Some(d.spec_buffer()[d.spec_offset()])
                && final(self).spec_elapsed() == old(self).spec_elapsed()),
    {
        let sample = match &mut self.decoder {
            Some(decoder) => decoder.next_sample(),
            None => None,
        };
        if sample.is_none() {
            self.decoder = None;
        }
        sample
    }
}

/// Pausing a loaded song is immediate and lossless: after `pause`
/// nothing is playing, and the session — with its elapsed time — is
/// exactly the one from before; after a following `resume`, sound is
/// playing again with the elapsed time still the one from before the
/// pause. (`p1` relates to `p0` as `pause` ensures, `p2` to `p1` as
/// `resume` ensures on a non-drained engine.)
pub proof fn lemma_pause_resume_is_lossless(p0: Player, p1: Player, p2: Player)
    requires
        !p0.spec_empty(),
        p1.spec_paused(),
        p1.spec_session() == p0.spec_session(),
        !p2.spec_paused(),
        p2.spec_session() == p1.spec_session(),
    ensures
        !p1.spec_is_playing(),
        p1.spec_elapsed() == p0.spec_elapsed(),
        p2.spec_elapsed() == p0.spec_elapsed(),
        p2.spec_is_playing(),
{
}

/// A song has finished playing exactly when the sink has no more samples
/// and is not paused; while paused the engine never reports a finished
/// song, even when it is also drained.
pub proof fn lemma_finished_is_drained_and_unpaused(p: Player)
    ensures
        p.spec_finished() <==> (p.spec_empty() && !p.spec_paused()),
        p.spec_paused() ==> !p.spec_finished(),
{
}

/// Once the stream has drained — for instance after a seek beyond the end
/// ran it out of packets — the engine reports elapsed time zero, which
/// never exceeds any reported duration.
pub proof fn lemma_drained_engine_reports_zero(p: Player)
    requires
        p.spec_empty(),
    ensures
        p.spec_elapsed() == 0,
        p.spec_elapsed() <= p.spec_duration(),
{
}

/// The queries reflect the active session alone: two engines holding the
/// same session report the same duration, elapsed time and emptiness,
/// whatever was loaded before. Together with the contract of `play_file`
/// (which installs the new session and leaves the engine untouched on
/// failure), loading a second file makes every query reflect only it.
pub proof fn lemma_queries_follow_active_session(a: Player, b: Player)
    requires
        a.spec_session() == b.spec_session(),
    ensures
        a.spec_duration() == b.spec_duration(),
        a.spec_elapsed() == b.spec_elapsed(),
        a.spec_empty() == b.spec_empty(),
{
}

impl Default for Player {
    /// A fresh engine: drained and paused.
    fn default() -> (r: Player)
        ensures
            r.wf(),
            r.spec_paused(),
            r.spec_empty(),
    {
        Player { sink_paused: true, decoder: None }
    }
}

} // verus!
