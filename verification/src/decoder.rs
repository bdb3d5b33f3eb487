//! The streaming decoder: turns the bytes of an audio file into a pull
//! based sequence of interleaved 16-bit samples, tolerating isolated
//! corrupt packets, tracking elapsed playback time and serving seek
//! requests between samples.

use crate::backend;
use crate::timebase::{spec_duration_millis, spec_ts_to_millis, duration_millis, TrackInfo, TrackTimeBase};
use vstd::prelude::*;

verus! {

/// A decode failure in more than this many consecutive packets ends the
/// stream; anything up to it is skipped.
pub const MAX_DECODE_ERRORS: usize = 3;

/// The plain classification of an error reported by the media backend,
/// one variant per backend error variant.
#[derive(Debug)]
pub enum ErrorKind {
    /// Reading or seeking the byte source failed.
    Io(String),
    /// One packet held malformed data. The only recoverable kind.
    Decode(String),
    /// The stream could not be seeked.
    Seek,
    /// The container or codec is not supported.
    Unsupported,
    /// A decoding safety limit was hit.
    Limit(String),
    /// The backend asks to be rebuilt before continuing.
    ResetRequired,
}

/// Why a decoder could not be constructed for a file.
#[derive(Debug)]
pub enum DecoderError {
    /// The container format was not recognized.
    UnrecognizedFormat,
    /// Reading or seeking the byte source failed.
    IoError(String),
    /// The first packets could not be decoded even after skipping the
    /// tolerated number of corrupt ones.
    DecodeError(String),
    /// A decoding safety limit was hit.
    LimitError(String),
    /// The backend asks to be rebuilt before continuing.
    ResetRequired,
    /// The container holds no audio track.
    NoStreams,
}

/// The classification of a failure to open a file, without the carried
/// messages: the shape of [`DecoderError`] as a plain value. The
/// byte-level model of the backend speaks in these.
#[derive(Clone, Copy, PartialEq, Eq, Structural, Debug)]
pub enum OpenFailure {
    UnrecognizedFormat,
    IoError,
    DecodeError,
    LimitError,
    ResetRequired,
    NoStreams,
}

/// The class a backend error belongs to, mirroring [`decoder_error_of`]:
/// a seek failure can only come from the byte source, so it counts as an
/// I/O failure.
pub open spec fn spec_failure_class(kind: ErrorKind) -> OpenFailure {
    match kind {
        ErrorKind::Io(_) => OpenFailure::IoError,
        ErrorKind::Decode(_) => OpenFailure::DecodeError,
        ErrorKind::Seek => OpenFailure::IoError,
        ErrorKind::Unsupported => OpenFailure::UnrecognizedFormat,
        ErrorKind::Limit(_) => OpenFailure::LimitError,
        ErrorKind::ResetRequired => OpenFailure::ResetRequired,
    }
}

/// The class a construction error belongs to.
pub open spec fn spec_error_class(e: DecoderError) -> OpenFailure {
    match e {
        DecoderError::UnrecognizedFormat => OpenFailure::UnrecognizedFormat,
        DecoderError::IoError(_) => OpenFailure::IoError,
        DecoderError::DecodeError(_) => OpenFailure::DecodeError,
        DecoderError::LimitError(_) => OpenFailure::LimitError,
        DecoderError::ResetRequired => OpenFailure::ResetRequired,
        DecoderError::NoStreams => OpenFailure::NoStreams,
    }
}

/// Maps a backend error classification onto [`DecoderError`]. A seek
/// failure while opening a file can only come from the byte source, so it
/// counts as an I/O error.
pub fn decoder_error_of(kind: ErrorKind) -> (r: DecoderError)
    ensures
        match kind {
            ErrorKind::Io(msg) => r == DecoderError::IoError(msg),
            ErrorKind::Decode(msg) => r == DecoderError::DecodeError(msg),
            ErrorKind::Seek => r is IoError,
            ErrorKind::Unsupported => r == DecoderError::UnrecognizedFormat,
            ErrorKind::Limit(msg) => r == DecoderError::LimitError(msg),
            ErrorKind::ResetRequired => r == DecoderError::ResetRequired,
        },
{
    match kind {
        ErrorKind::Io(msg) => DecoderError::IoError(msg),
        ErrorKind::Decode(msg) => DecoderError::DecodeError(msg),
        ErrorKind::Seek => DecoderError::IoError("seek failed".to_owned()),
        ErrorKind::Unsupported => DecoderError::UnrecognizedFormat,
        ErrorKind::Limit(msg) => DecoderError::LimitError(msg),
        ErrorKind::ResetRequired => DecoderError::ResetRequired,
    }
}

/// One decoded packet: its interleaved 16-bit samples and the signal
/// shape they were decoded with. The shape may differ between blocks.
pub struct SampleBlock {
    pub samples: Vec<i16>,
    pub channels: u16,
    pub rate: u32,
}

/// What reading and decoding one packet of the stream produced.
pub enum PacketOutcome {
    /// The packet was read and decoded: the block and the packet's
    /// timestamp in time-base ticks.
    Decoded(SampleBlock, u64),
    /// The packet was read but held malformed data (the one recoverable
    /// failure); the backend's message.
    Malformed(String),
    /// The packet could not be read at all, or decoding failed in a way
    /// that is not a plain decode error.
    Failed(ErrorKind),
}

/// The shape of one packet step in the byte-level model: a
/// [`PacketOutcome`] stripped of its messages and samples.
pub enum StepModel {
    Decoded { ts: u64, channels: u16, rate: u32, len: usize },
    Malformed,
    Failed(OpenFailure),
}

/// The shared control cell of one playback session. The producing side
/// reads pending seeks and advances the elapsed time; any controlling
/// side may request seeks and read the times. All times are milliseconds.
#[derive(Clone, Copy, Debug)]
pub struct DecoderControl {
    total_duration: u64,
    time_elapsed: u64,
    seek_request: Option<u64>,
}

impl DecoderControl {
    pub closed spec fn spec_total_duration(self) -> u64 {
        self.total_duration
    }

    pub closed spec fn spec_time_elapsed(self) -> u64 {
        self.time_elapsed
    }

    pub closed spec fn spec_seek_request(self) -> Option<u64> {
        self.seek_request
    }

    pub fn new(total_duration: u64) -> (r: Self)
        ensures
            r.spec_total_duration() == total_duration,
            r.spec_time_elapsed() == 0,
            r.spec_seek_request() is None,
    {
        DecoderControl { total_duration, time_elapsed: 0, seek_request: None }
    }

    /// Requests a seek and immediately reports the target as the elapsed
    /// time, so that a poll right after the call already sees it. A second
    /// request before the first is consumed overwrites it.
    pub fn seek(&mut self, elapsed: u64)
        ensures
            final(self).spec_seek_request() == Some(elapsed),
            final(self).spec_time_elapsed() == elapsed,
            final(self).spec_total_duration() == old(self).spec_total_duration(),
    {
        self.seek_request = Some(elapsed);
        self.time_elapsed = elapsed;
    }

    pub fn get_seek_request(&self) -> (r: Option<u64>)
        ensures
            r == self.spec_seek_request(),
    {
        self.seek_request
    }

    pub fn time_elapsed(&self) -> (r: u64)
        ensures
            r == self.spec_time_elapsed(),
    {
        self.time_elapsed
    }

    pub fn total_duration(&self) -> (r: u64)
        ensures
            r == self.spec_total_duration(),
    {
        self.total_duration
    }

    pub fn set_elapsed(&mut self, elapsed: u64)
        ensures
            final(self).spec_time_elapsed() == elapsed,
            final(self).spec_seek_request() == old(self).spec_seek_request(),
            final(self).spec_total_duration() == old(self).spec_total_duration(),
    {
        self.time_elapsed = elapsed;
    }

    pub fn clear_seek_request(&mut self)
        ensures
            final(self).spec_seek_request() is None,
            final(self).spec_time_elapsed() == old(self).spec_time_elapsed(),
            final(self).spec_total_duration() == old(self).spec_total_duration(),
    {
        self.seek_request = None;
    }
}

/// One observed step of the packet-refill loop.
pub enum RefillEvent {
    /// The next packet was read and decoded into a sample block.
    Good,
    /// The next packet was read but held malformed data: the one
    /// recoverable failure.
    Corrupt,
    /// The next packet could not be read at all, or failed in a way that
    /// is not a plain decode error.
    Fatal,
}

/// What a refill attempt comes to.
#[derive(PartialEq, Eq, Structural)]
pub enum RefillOutcome {
    /// A good packet was decoded and playback goes on.
    Decoded,
    /// The stream ended: no packet, or corruption beyond the budget.
    Ended,
}

/// The rule the refill loop follows, given the events the backend produces
/// and the number of corrupt packets already skipped in a row: the first
/// good packet is decoded, unless a read failure comes first or the run of
/// corrupt packets grows beyond [`MAX_DECODE_ERRORS`].
pub open spec fn spec_refill_outcome(events: Seq<RefillEvent>, errors: int) -> RefillOutcome
    decreases events.len(),
{
    if events.len() == 0 {
        RefillOutcome::Ended
    } else {
        match events[0] {
            RefillEvent::Good => RefillOutcome::Decoded,
            RefillEvent::Corrupt => if errors + 1 > MAX_DECODE_ERRORS {
                RefillOutcome::Ended
            } else {
                spec_refill_outcome(events.drop_first(), errors + 1)
            },
            RefillEvent::Fatal => RefillOutcome::Ended,
        }
    }
}

proof fn lemma_outcome_after_corrupt_run(k: nat, tail: Seq<RefillEvent>, errors: int)
    requires
        0 <= errors,
        errors + k <= MAX_DECODE_ERRORS,
    ensures
        spec_refill_outcome(corrupt_run(k) + tail, errors) == spec_refill_outcome(
            tail,
            errors + k,
        ),
    decreases k,
{
    if k == 0 {
        assert(corrupt_run(0) + tail =~= tail);
    } else {
        let s = corrupt_run(k) + tail;
        assert(s[0] == RefillEvent::Corrupt);
        assert(s.drop_first() =~= corrupt_run((k - 1) as nat) + tail);
        lemma_outcome_after_corrupt_run((k - 1) as nat, tail, errors + 1);
    }
}

/// A run of `k` consecutive corrupt packets.
pub open spec fn corrupt_run(k: nat) -> Seq<RefillEvent> {
    Seq::new(k, |i: int| RefillEvent::Corrupt)
}

/// The corruption-tolerance law: a run of `k` consecutive corrupt packets
/// followed by a good packet is survived when `k` stays within the budget
/// (the good packet is decoded and playback resumes), while a longer run
/// ends the stream at that point, whatever packets follow.
pub proof fn lemma_corruption_budget(k: nat, rest: Seq<RefillEvent>)
    ensures
        k <= MAX_DECODE_ERRORS ==> spec_refill_outcome(
            corrupt_run(k).push(RefillEvent::Good) + rest,
            0,
        ) == RefillOutcome::Decoded,
        k > MAX_DECODE_ERRORS ==> spec_refill_outcome(corrupt_run(k) + rest, 0)
            == RefillOutcome::Ended,
{
    if k <= MAX_DECODE_ERRORS {
        let tail = seq![RefillEvent::Good] + rest;
        lemma_outcome_after_corrupt_run(k, tail, 0);
        assert(corrupt_run(k).push(RefillEvent::Good) + rest =~= corrupt_run(k) + tail);
        assert(tail[0] == RefillEvent::Good);
    } else {
        let budget = MAX_DECODE_ERRORS as nat;
        let tail = corrupt_run((k - budget) as nat) + rest;
        lemma_outcome_after_corrupt_run(budget, tail, 0);
        assert(corrupt_run(k) + rest =~= corrupt_run(budget) + tail);
        assert(tail[0] == RefillEvent::Corrupt);
    }
}

/// The track parameters the decoder keeps: a time base with a zero part
/// could never convert a timestamp, so it is treated as absent (the
/// backend never produces one).
pub open spec fn spec_normalized_track(t: TrackInfo) -> TrackInfo {
    TrackInfo {
        track_id: t.track_id,
        n_frames: t.n_frames,
        time_base: match t.time_base {
            Some(tb) => if tb.numer > 0 && tb.denom > 0 {
                Some(tb)
            } else {
                None
            },
            None => None,
        },
    }
}

/// The outcome of the opening decode loop from packet `errors` on. In
/// that loop the packet index and the number of corrupt packets skipped
/// coincide, since every packet before the first good one was corrupt:
/// the first packet that decodes is the result, unless the run of corrupt
/// packets grows beyond the budget or a packet fails fatally.
pub open spec fn spec_open_block(bytes: Seq<u8>, errors: int) -> Result<StepModel, OpenFailure>
    decreases MAX_DECODE_ERRORS - errors,
{
    let step = backend::spec_packet_step(bytes, errors);
    match step {
        StepModel::Decoded { .. } => Ok(step),
        StepModel::Malformed => if errors + 1 > MAX_DECODE_ERRORS {
            Err(OpenFailure::DecodeError)
        } else {
            spec_open_block(bytes, errors + 1)
        },
        StepModel::Failed(f) => Err(f),
    }
}

/// What opening the given bytes comes to: the (normalized) parameters of
/// the recognized container's default track, provided its codec can be
/// made and a first packet decodes within the corruption budget; else the
/// classification of the failure. Construction succeeds on exactly these
/// bytes.
pub open spec fn spec_open_result(bytes: Seq<u8>) -> Result<TrackInfo, OpenFailure> {
    match backend::spec_probe(bytes) {
        Some(f) => Err(f),
        None => match backend::spec_track(bytes) {
            None => Err(OpenFailure::NoStreams),
            Some(raw) => match backend::spec_codec(bytes) {
                Some(f) => Err(f),
                None => match spec_open_block(bytes, 0) {
                    Ok(_) => Ok(spec_normalized_track(raw)),
                    Err(f) => Err(f),
                },
            },
        },
    }
}

/// A pull-based stream decoder over one media session: the backend's
/// format reader and codec decoder, the sample block most recently
/// decoded with a read cursor into it, and the session's shared control
/// state.
pub struct SymphoniaDecoder {
    session: backend::MediaSession,
    track: TrackInfo,
    buffer: Vec<i16>,
    current_frame_offset: usize,
    channels: u16,
    rate: u32,
    control: DecoderControl,
}

impl SymphoniaDecoder {
    /// The read cursor never leaves the current block, a stored time base
    /// is always usable (both parts non-zero), and the session has its
    /// codec decoder.
    pub closed spec fn wf(self) -> bool {
        &&& self.current_frame_offset <= self.buffer@.len()
        &&& self.track.time_base matches Some(tb) ==> tb.numer > 0 && tb.denom > 0
        &&& self.session.spec_has_codec()
    }

    pub closed spec fn spec_track(self) -> TrackInfo {
        self.track
    }

    pub closed spec fn spec_buffer(self) -> Seq<i16> {
        self.buffer@
    }

    pub closed spec fn spec_offset(self) -> int {
        self.current_frame_offset as int
    }

    pub closed spec fn spec_control(self) -> DecoderControl {
        self.control
    }

    pub closed spec fn spec_channels(self) -> u16 {
        self.channels
    }

    pub closed spec fn spec_rate(self) -> u32 {
        self.rate
    }

    /// Builds a decoder for the audio file held in `data`. Construction
    /// succeeds exactly when the bytes open (`spec_open_result`); the
    /// session then carries the track the bytes name, the shape of the
    /// first decoded block, the total duration fixed from the track's
    /// declared frame count and time base, elapsed time zero and no
    /// pending seek. On failure the error's class is the one the bytes
    /// name.
    pub fn new(data: Vec<u8>) -> (r: Result<SymphoniaDecoder, DecoderError>)
        ensures
            (r is Ok) <==> spec_open_result(data@) is Ok,
            r matches Ok(d) ==> {
                &&& d.wf()
                &&& d.spec_offset() == 0
                &&& d.spec_control().spec_time_elapsed() == 0
                &&& d.spec_control().spec_seek_request() is None
                &&& d.spec_control().spec_total_duration() == spec_duration_millis(
                    d.spec_track().n_frames,
                    d.spec_track().time_base,
                )
                &&& spec_open_result(data@) == Ok::<TrackInfo, OpenFailure>(d.spec_track())
                &&& (spec_open_block(data@, 0) matches Ok(m) && m matches StepModel::Decoded {
                    ts: _,
                    channels,
                    rate,
                    len,
                } && d.spec_channels() == channels && d.spec_rate() == rate
                    && d.spec_buffer().len() == len)
            },
            r matches Err(e) ==> spec_open_result(data@) matches Err(f) && spec_error_class(e)
                == f,
    {
        match Self::init(data) {
            Ok(Some(decoder)) => Ok(decoder),
            Ok(None) => Err(DecoderError::NoStreams),
            Err(kind) => {
                let ghost k = kind;
                let e = decoder_error_of(kind);
                proof {
                    assert(spec_error_class(e) == spec_failure_class(k));
                }
                Err(e)
            },
        }
    }

    /// Hands out a copy of the control state, so that the engine can
    /// answer queries about this session.
    pub fn get_control(&self) -> (r: DecoderControl)
        ensures
            r == self.spec_control(),
    {
        self.control
    }

    /// Requests a seek on this session's control: the target is reported
    /// as the elapsed time at once, and the stream repositions before it
    /// produces its next sample. A second request before that overwrites
    /// the first.
    pub fn request_seek(&mut self, time: u64)
        ensures
            final(self).spec_control().spec_seek_request() == Some(time),
            final(self).spec_control().spec_time_elapsed() == time,
            final(self).spec_control().spec_total_duration()
                == old(self).spec_control().spec_total_duration(),
            final(self).spec_track() == old(self).spec_track(),
            final(self).spec_buffer() == old(self).spec_buffer(),
            final(self).spec_offset() == old(self).spec_offset(),
            final(self).spec_channels() == old(self).spec_channels(),
            final(self).spec_rate() == old(self).spec_rate(),
            old(self).wf() ==> final(self).wf(),
    {
        self.control.seek(time)
    }

    fn init(data: Vec<u8>) -> (r: Result<Option<SymphoniaDecoder>, ErrorKind>)
        ensures
            (r matches Ok(Some(_))) <==> spec_open_result(data@) is Ok,
            r matches Ok(Some(d)) ==> {
                &&& d.wf()
                &&& d.spec_offset() == 0
                &&& d.spec_control().spec_time_elapsed() == 0
                &&& d.spec_control().spec_seek_request() is None
                &&& d.spec_control().spec_total_duration() == spec_duration_millis(
                    d.spec_track().n_frames,
                    d.spec_track().time_base,
                )
                &&& spec_open_result(data@) == Ok::<TrackInfo, OpenFailure>(d.spec_track())
                &&& (spec_open_block(data@, 0) matches Ok(m) && m matches StepModel::Decoded {
                    ts: _,
                    channels,
                    rate,
                    len,
                } && d.spec_channels() == channels && d.spec_rate() == rate
                    && d.spec_buffer().len() == len)
            },
            r matches Ok(None) ==> spec_open_result(data@) == Err::<TrackInfo, OpenFailure>(
                OpenFailure::NoStreams,
            ),
            r matches Err(e) ==> spec_open_result(data@) == Err::<TrackInfo, OpenFailure>(
                spec_failure_class(e),
            ),
    {
        let ghost bytes: Seq<u8> = data@;
        let mut session = match backend::probe_bytes(data) {
            Ok(session) => session,
            Err(kind) => return Err(kind),
        };
        let raw = match backend::default_track_info(&session) {
            Some(raw) => raw,
            None => return Ok(None),
        };
        // A time base with a zero part could never convert a timestamp;
        // treat it like an absent one, as the backend never produces it.
        let track = TrackInfo {
            track_id: raw.track_id,
            n_frames: raw.n_frames,
            time_base: match raw.time_base {
                Some(tb) => if tb.numer > 0 && tb.denom > 0 {
                    Some(tb)
                } else {
                    None
                },
                None => None,
            },
        };
        proof {
            assert(track == spec_normalized_track(raw));
        }
        match backend::make_codec(&mut session) {
            Ok(()) => {},
            Err(kind) => return Err(kind),
        }
        let duration = duration_millis(track.n_frames, track.time_base);
        let (first, _) = Self::first_block(&mut session);
        let (block, _ts) = match first {
            Ok(pair) => pair,
            Err(kind) => return Err(kind),
        };
        let block_len = block.samples.len();
        proof {
            assert(block.samples@.len() == block_len);
        }
        let control = DecoderControl::new(duration);
        Ok(
            Some(
                SymphoniaDecoder {
                    session,
                    track,
                    buffer: block.samples,
                    current_frame_offset: 0,
                    channels: block.channels,
                    rate: block.rate,
                    control,
                },
            ),
        )
    }

    /// Decodes the first packet, skipping up to [`MAX_DECODE_ERRORS`]
    /// corrupt ones; one more corrupt packet, or any other failure, fails
    /// construction with that error. The result is exactly what
    /// [`spec_open_block`] prescribes for the session's bytes, and the
    /// ghost log of observed steps obeys the policy of
    /// [`spec_refill_outcome`], as in [`Self::refill`].
    fn first_block(session: &mut backend::MediaSession) -> (r: (
        Result<(SampleBlock, u64), ErrorKind>,
        Ghost<Seq<RefillEvent>>,
    ))
        requires
            old(session).spec_has_codec(),
            old(session).spec_pos() == Some(0int),
        ensures
            final(session).spec_bytes() == old(session).spec_bytes(),
            final(session).spec_has_codec(),
            spec_refill_outcome(r.1@, 0) == (if r.0 is Ok {
                RefillOutcome::Decoded
            } else {
                RefillOutcome::Ended
            }),
            match r.0 {
                Ok((block, ts)) => spec_open_block(old(session).spec_bytes(), 0) == Ok::<
                    StepModel,
                    OpenFailure,
                >(
                    (StepModel::Decoded {
                        ts,
                        channels: block.channels,
                        rate: block.rate,
                        len: block.samples@.len() as usize,
                    }),
                ),
                Err(e) => spec_open_block(old(session).spec_bytes(), 0) == Err::<
                    StepModel,
                    OpenFailure,
                >(spec_failure_class(e)),
            },
    {
        let mut decode_errors: usize = 0;
        let ghost mut events: Seq<RefillEvent> = Seq::empty();
        loop
            invariant
                session.spec_has_codec(),
                session.spec_bytes() == old(session).spec_bytes(),
                session.spec_pos() == Some(decode_errors as int),
                decode_errors <= MAX_DECODE_ERRORS,
                events == corrupt_run(decode_errors as nat),
                spec_open_block(session.spec_bytes(), 0) == spec_open_block(
                    session.spec_bytes(),
                    decode_errors as int,
                ),
            decreases MAX_DECODE_ERRORS - decode_errors,
        {
            match backend::packet_step(session) {
                PacketOutcome::Decoded(block, ts) => {
                    proof {
                        lemma_outcome_after_corrupt_run(
                            decode_errors as nat,
                            seq![RefillEvent::Good],
                            0,
                        );
                        events = events + seq![RefillEvent::Good];
                    }
                    return (Ok((block, ts)), Ghost(events));
                },
                PacketOutcome::Malformed(msg) => {
                    proof {
                        lemma_outcome_after_corrupt_run(
                            decode_errors as nat,
                            seq![RefillEvent::Corrupt],
                            0,
                        );
                        events = events + seq![RefillEvent::Corrupt];
                        assert(events =~= corrupt_run((decode_errors + 1) as nat));
                    }
                    decode_errors = decode_errors + 1;
                    if decode_errors > MAX_DECODE_ERRORS {
                        return (Err(ErrorKind::Decode(msg)), Ghost(events));
                    }
                },
                PacketOutcome::Failed(kind) => {
                    proof {
                        lemma_outcome_after_corrupt_run(
                            decode_errors as nat,
                            seq![RefillEvent::Fatal],
                            0,
                        );
                        events = events + seq![RefillEvent::Fatal];
                    }
                    return (Err(kind), Ghost(events));
                },
            }
        }
    }

    /// Replaces the exhausted block with the next one that decodes,
    /// following the rule of [`spec_refill_outcome`]: up to
    /// [`MAX_DECODE_ERRORS`] consecutive corrupt packets are skipped; a
    /// longer run, or any read failure, ends the stream (`false`). The
    /// first ghost result logs the steps the backend was observed to take,
    /// and the contract states that the answer is exactly what the policy
    /// prescribes for that log. Each decoded packet advances the elapsed
    /// time to the conversion of its timestamp — the second ghost result —
    /// under the track's time base; without a time base the elapsed time
    /// does not move.
    fn refill(&mut self) -> (r: (bool, Ghost<Seq<RefillEvent>>, Ghost<u64>))
        requires
            old(self).wf(),
        ensures
            final(self).wf(),
            final(self).track == old(self).track,
            final(self).control.spec_total_duration()
                == old(self).control.spec_total_duration(),
            final(self).control.spec_seek_request() == old(self).control.spec_seek_request(),
            old(self).track.time_base is None
                ==> final(self).control.spec_time_elapsed()
                == old(self).control.spec_time_elapsed(),
            r.0 ==> final(self).current_frame_offset == 0,
            r.0 ==> (final(self).track.time_base matches Some(tb)
                ==> final(self).control.spec_time_elapsed() == spec_ts_to_millis(r.2@, tb)),
            !r.0 ==> final(self).buffer == old(self).buffer && final(self).current_frame_offset
                == old(self).current_frame_offset && final(self).control.spec_time_elapsed()
                == old(self).control.spec_time_elapsed(),
            spec_refill_outcome(r.1@, 0) == (if r.0 {
                RefillOutcome::Decoded
            } else {
                RefillOutcome::Ended
            }),
    {
        let mut decode_errors: usize = 0;
        let ghost mut events: Seq<RefillEvent> = Seq::empty();
        loop
            invariant
                decode_errors <= MAX_DECODE_ERRORS,
                events == corrupt_run(decode_errors as nat),
                self.wf(),
                self.track == old(self).track,
                self.buffer == old(self).buffer,
                self.current_frame_offset == old(self).current_frame_offset,
                self.channels == old(self).channels,
                self.rate == old(self).rate,
                self.control == old(self).control,
            decreases MAX_DECODE_ERRORS - decode_errors,
        {
            match backend::packet_step(&mut self.session) {
                PacketOutcome::Decoded(block, ts) => {
                    proof {
                        lemma_outcome_after_corrupt_run(
                            decode_errors as nat,
                            seq![RefillEvent::Good],
                            0,
                        );
                        events = events + seq![RefillEvent::Good];
                    }
                    if let Some(tb) = self.track.time_base {
                        self.control.set_elapsed(crate::timebase::ts_to_millis(ts, tb));
                    }
                    self.channels = block.channels;
                    self.rate = block.rate;
                    self.buffer = block.samples;
                    self.current_frame_offset = 0;
                    return (true, Ghost(events), Ghost(ts));
                },
                PacketOutcome::Malformed(_) => {
                    proof {
                        lemma_outcome_after_corrupt_run(
                            decode_errors as nat,
                            seq![RefillEvent::Corrupt],
                            0,
                        );
                        events = events + seq![RefillEvent::Corrupt];
                        assert(events =~= corrupt_run((decode_errors + 1) as nat));
                    }
                    decode_errors = decode_errors + 1;
                    if decode_errors > MAX_DECODE_ERRORS {
                        return (false, Ghost(events), Ghost(0));
                    }
                },
                PacketOutcome::Failed(_) => {
                    proof {
                        lemma_outcome_after_corrupt_run(
                            decode_errors as nat,
                            seq![RefillEvent::Fatal],
                            0,
                        );
                        events = events + seq![RefillEvent::Fatal];
                    }
                    return (false, Ghost(events), Ghost(0));
                },
            }
        }
    }

    /// Asks the backend to reposition the stream near `time` (coarse: the
    /// landing point may be a nearby keyframe). Returns the landing time
    /// when the backend reports one. The current block, cursor and control
    /// state are untouched; in particular the elapsed time keeps the value
    /// the seek request set.
    fn seek(&mut self, time: u64) -> (r: Option<u64>)
        requires
            old(self).wf(),
        ensures
            final(self).wf(),
            final(self).track == old(self).track,
            final(self).buffer == old(self).buffer,
            final(self).current_frame_offset == old(self).current_frame_offset,
            final(self).channels == old(self).channels,
            final(self).rate == old(self).rate,
            final(self).control == old(self).control,
    {
        match backend::seek_to_millis(&mut self.session, time) {
            Ok(actual_ts) => {
                if self.rate > 0 {
                    Some(
                        crate::timebase::ts_to_millis(
                            actual_ts,
                            TrackTimeBase { numer: 1, denom: self.rate },
                        ),
                    )
                } else {
                    None
                }
            },
            Err(_) => None,
        }
    }

    /// Produces the next sample. A pending seek request is served first
    /// and cleared. When the current block is exhausted, the next packet
    /// is decoded under the corruption budget, and the elapsed time
    /// becomes the conversion of the decoded packet's timestamp under the
    /// track's time base; when no block can be had, the stream has ended.
    pub fn next_sample(&mut self) -> (r: Option<i16>)
        requires
            old(self).wf(),
        ensures
            final(self).wf(),
            final(self).spec_track() == old(self).spec_track(),
            final(self).spec_control().spec_total_duration()
                == old(self).spec_control().spec_total_duration(),
            final(self).spec_control().spec_seek_request() is None,
            old(self).spec_track().time_base is None
                ==> final(self).spec_control().spec_time_elapsed()
                == old(self).spec_control().spec_time_elapsed(),
            old(self).spec_offset() < old(self).spec_buffer().len() ==> {
                &&& r == Some(old(self).spec_buffer()[old(self).spec_offset()])
                &&& final(self).spec_buffer() == old(self).spec_buffer()
                &&& final(self).spec_offset() == old(self).spec_offset() + 1
                &&& final(self).spec_control().spec_time_elapsed()
                    == old(self).spec_control().spec_time_elapsed()
            },
            old(self).spec_offset() == old(self).spec_buffer().len() ==> match r {
                Some(s) => final(self).spec_buffer().len() > 0 && final(self).spec_offset() == 1
                    && s == final(self).spec_buffer()[0],
                None => final(self).spec_offset() == final(self).spec_buffer().len(),
            },
            old(self).spec_track().time_base matches Some(tb) ==> ((old(self).spec_offset()
                == old(self).spec_buffer().len() && r is Some) ==> exists|ts: u64|
                final(self).spec_control().spec_time_elapsed() == spec_ts_to_millis(ts, tb)),
    {
        if let Some(time) = self.control.get_seek_request() {
            self.seek(time);
            self.control.clear_seek_request();
        }
        if self.current_frame_offset == self.buffer.len() {
            let (refilled, _, landed_ts) = self.refill();
            proof {
                if refilled {
                    match self.track.time_base {
                        Some(tb) => {
                            assert(self.control.spec_time_elapsed() == spec_ts_to_millis(
                                landed_ts@,
                                tb,
                            ));
                        },
                        None => {},
                    }
                }
            }
            if !refilled {
                return None;
            }
        }
        if self.buffer.len() == 0 {
            return None;
        }
        let sample = self.buffer[self.current_frame_offset];
        self.current_frame_offset = self.current_frame_offset + 1;
        Some(sample)
    }


    /// The length of the block currently decoded.
    pub fn current_frame_len(&self) -> (r: Option<usize>)
        ensures
            r matches Some(n) && n == self.spec_buffer().len(),
    {
        Some(self.buffer.len())
    }

    /// The channel count of the block currently decoded.
    pub fn channels(&self) -> (r: u16)
        ensures
            r == self.spec_channels(),
    {
        self.channels
    }

    /// The sample rate of the block currently decoded.
    pub fn sample_rate(&self) -> (r: u32)
        ensures
            r == self.spec_rate(),
    {
        self.rate
    }

    /// The session's total duration in milliseconds.
    pub fn total_duration(&self) -> (r: Option<u64>)
        ensures
            r matches Some(d) && d == self.spec_control().spec_total_duration(),
    {
        Some(self.control.total_duration())
    }
}

} // verus!
