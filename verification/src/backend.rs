//! The trusted boundary to the symphonia media backend. Everything the
//! verified decoder logic needs from symphonia passes through the wrapper
//! functions of this module; their contracts are believed, not proved.
//!
//! Decoding an in-memory byte source is a deterministic computation, so
//! the outcome of each backend stage is a function of the bytes alone.
//! The named results below (`spec_probe`, `spec_track`, `spec_codec`,
//! `spec_packet_step`) stand for those outcomes, and a [`MediaSession`]
//! carries, beside the opaque reader, a ghost copy of its bytes and its
//! packet position, so that each wrapper can state which named outcome
//! its call returns. After a seek the position is no longer known and the
//! packet model makes no further claims.

use crate::decoder::{ErrorKind, OpenFailure, PacketOutcome, SampleBlock, StepModel};
use crate::decoder::spec_failure_class;
use crate::timebase::{TrackInfo, TrackTimeBase};
use vstd::prelude::*;

verus! {

#[verifier::external_type_specification]
#[verifier::external_body]
pub struct ExProbeResult(symphonia::core::probe::ProbeResult);

#[verifier::external_type_specification]
#[verifier::external_body]
pub struct ExError(symphonia::core::errors::Error);

/// The codec decoder of one playback session. It is a symphonia trait
/// object, which cannot be named in a verified field, so this struct
/// carries it opaquely.
#[verifier::external_body]
struct CodecHandle {
    decoder: Box<dyn symphonia::core::codecs::Decoder>,
}

/// One open media source: the probed format reader, the codec decoder
/// once it is made, and the ghost model that ties both to the bytes they
/// were opened over. Only the wrappers of this module construct one.
pub struct MediaSession {
    probed: symphonia::core::probe::ProbeResult,
    codec: Option<CodecHandle>,
    bytes: Ghost<Seq<u8>>,
    pos: Ghost<Option<int>>,
}

impl MediaSession {
    /// The bytes this session was opened over.
    pub closed spec fn spec_bytes(self) -> Seq<u8> {
        self.bytes@
    }

    /// How many packets have been read, in order from the start; `None`
    /// once a seek or a failed read has moved the stream off the
    /// sequential path.
    pub closed spec fn spec_pos(self) -> Option<int> {
        self.pos@
    }

    /// Whether the codec decoder has been made.
    pub closed spec fn spec_has_codec(self) -> bool {
        self.codec is Some
    }
}

/// What probing the given bytes comes to: `None` when the container is
/// recognized, else the failure's classification.
pub uninterp spec fn spec_probe(bytes: Seq<u8>) -> Option<OpenFailure>;

/// The default track of the container held in the given bytes, as plain
/// parameters; `None` when the container declares no track. Meaningful
/// only where `spec_probe` reports success.
pub uninterp spec fn spec_track(bytes: Seq<u8>) -> Option<TrackInfo>;

/// Whether a codec decoder can be made for the default track of the
/// given bytes: `None` on success, else the failure's classification.
pub uninterp spec fn spec_codec(bytes: Seq<u8>) -> Option<OpenFailure>;

/// The outcome of reading and decoding packet `k` of the given bytes,
/// counted from the start of the stream with every earlier packet read
/// and decoded in order: the decoded block's shape and timestamp, a
/// malformed packet, or a fatal failure.
pub uninterp spec fn spec_packet_step(bytes: Seq<u8>, k: int) -> StepModel;

/// Relies on symphonia's `Error` enum: tells its variants apart, one arm
/// each, and copies their messages out, so that verified code can match on
/// a plain classification.
#[verifier::external_body]
fn classify_error(e: symphonia::core::errors::Error) -> ErrorKind {
    match e {
        symphonia::core::errors::Error::IoError(err) => ErrorKind::Io(err.to_string()),
        symphonia::core::errors::Error::DecodeError(msg) => ErrorKind::Decode(msg.to_string()),
        symphonia::core::errors::Error::SeekError(_) => ErrorKind::Seek,
        symphonia::core::errors::Error::Unsupported(_) => ErrorKind::Unsupported,
        symphonia::core::errors::Error::LimitError(msg) => ErrorKind::Limit(msg.to_string()),
        symphonia::core::errors::Error::ResetRequired => ErrorKind::ResetRequired,
    }
}

/// Relies on `get_probe().format`: sniffs the container format in the
/// given bytes (by content, not name) and returns a session whose reader
/// stands at the first packet. Probing an in-memory source is
/// deterministic, so success and the failure's class are exactly what
/// [`spec_probe`] names for these bytes.
#[verifier::external_body]
pub(crate) fn probe_bytes(data: Vec<u8>) -> (r: Result<MediaSession, ErrorKind>)
    ensures
        match r {
            Ok(s) => {
                &&& spec_probe(data@) is None
                &&& s.spec_bytes() == data@
                &&& s.spec_pos() == Some(0int)
                &&& !s.spec_has_codec()
            },
            Err(e) => spec_probe(data@) == Some(spec_failure_class(e)),
        },
{
    let cursor = Box::new(std::io::Cursor::new(data));
    let source = symphonia::core::io::MediaSourceStream::new(cursor, Default::default());
    match symphonia::default::get_probe().format(
        &symphonia::core::probe::Hint::default(),
        source,
        &symphonia::core::formats::FormatOptions::default(),
        &symphonia::core::meta::MetadataOptions::default(),
    ) {
        Ok(probed) => Ok(
            MediaSession { probed, codec: None, bytes: Ghost(Seq::empty()), pos: Ghost(None) },
        ),
        Err(e) => Err(classify_error(e)),
    }
}

/// Relies on `FormatReader::default_track`: copies the default track's
/// id, frame count and time base out as plain values — the parameters
/// [`spec_track`] names for the session's bytes.
#[verifier::external_body]
pub(crate) fn default_track_info(s: &MediaSession) -> (r: Option<TrackInfo>)
    ensures
        r == spec_track(s.spec_bytes()),
{
    s.probed.format.default_track().map(|track| TrackInfo {
        track_id: track.id,
        n_frames: track.codec_params.n_frames,
        time_base: track.codec_params.time_base.map(|tb| TrackTimeBase {
            numer: tb.numer,
            denom: tb.denom,
        }),
    })
}

/// Relies on `get_codecs().make`: builds the codec decoder for the
/// session's default track, with decoder-side verification enabled.
/// Success and the failure's class are what [`spec_codec`] names.
#[verifier::external_body]
pub(crate) fn make_codec(s: &mut MediaSession) -> (r: Result<(), ErrorKind>)
    requires
        spec_track(old(s).spec_bytes()) is Some,
        !old(s).spec_has_codec(),
    ensures
        final(s).spec_bytes() == old(s).spec_bytes(),
        final(s).spec_pos() == old(s).spec_pos(),
        match r {
            Ok(()) => spec_codec(old(s).spec_bytes()) is None && final(s).spec_has_codec(),
            Err(e) => spec_codec(old(s).spec_bytes()) == Some(spec_failure_class(e))
                && !final(s).spec_has_codec(),
        },
{
    let track = match s.probed.format.default_track() {
        Some(track) => track,
        None => return Err(ErrorKind::Unsupported),
    };
    let options = symphonia::core::codecs::DecoderOptions { verify: true };
    match symphonia::default::get_codecs().make(&track.codec_params, &options) {
        Ok(decoder) => {
            s.codec = Some(CodecHandle { decoder });
            Ok(())
        },
        Err(e) => Err(classify_error(e)),
    }
}

/// Relies on `FormatReader::next_packet` and `Decoder::decode`: reads the
/// next packet of the container and decodes it into interleaved 16-bit
/// samples together with the block's signal shape and the packet's
/// timestamp. While the session is on the sequential path, the outcome's
/// shape is what [`spec_packet_step`] names for its position; a fatal
/// failure leaves the position unknown.
#[verifier::external_body]
pub(crate) fn packet_step(s: &mut MediaSession) -> (r: PacketOutcome)
    requires
        old(s).spec_has_codec(),
    ensures
        final(s).spec_bytes() == old(s).spec_bytes(),
        final(s).spec_has_codec(),
        old(s).spec_pos() matches Some(k) ==> match r {
            PacketOutcome::Decoded(block, ts) => spec_packet_step(old(s).spec_bytes(), k) == (
            StepModel::Decoded {
                ts,
                channels: block.channels,
                rate: block.rate,
                len: block.samples@.len() as usize,
            }) && final(s).spec_pos() == Some(k + 1),
            PacketOutcome::Malformed(_) => spec_packet_step(old(s).spec_bytes(), k)
                is Malformed && final(s).spec_pos() == Some(k + 1),
            PacketOutcome::Failed(e) => spec_packet_step(old(s).spec_bytes(), k)
                == StepModel::Failed(spec_failure_class(e)) && final(s).spec_pos() is None,
        },
        old(s).spec_pos() is None ==> final(s).spec_pos() is None,
{
    let packet = match s.probed.format.next_packet() { Ok(p) => p, Err(e) => return PacketOutcome::Failed(classify_error(e)) };
    match s.codec.as_mut().unwrap().decoder.decode(&packet) {
        Ok(audio) => {
            let spec = *audio.spec();
            let mut buf = symphonia::core::audio::SampleBuffer::<i16>::new(audio.capacity() as u64, spec);
            buf.copy_interleaved_ref(audio);
            let channels = spec.channels.count() as u16;
            PacketOutcome::Decoded(SampleBlock { samples: buf.samples().to_vec(), channels, rate: spec.rate }, packet.ts())
        },
        Err(e) => match classify_error(e) {
            ErrorKind::Decode(m) => PacketOutcome::Malformed(m),
            kind => PacketOutcome::Failed(kind),
        },
    }
}

/// Relies on `FormatReader::seek` in coarse mode: repositions the stream
/// near the given time (the landing point may be a nearby keyframe on
/// either side) and returns the timestamp actually landed on. The session
/// leaves the sequential path, so the packet model claims nothing after.
#[verifier::external_body]
pub(crate) fn seek_to_millis(s: &mut MediaSession, millis: u64) -> (r: Result<u64, ErrorKind>)
    ensures
        final(s).spec_bytes() == old(s).spec_bytes(),
        final(s).spec_has_codec() == old(s).spec_has_codec(),
        final(s).spec_pos() is None,
{
    let time = symphonia::core::units::Time::from(std::time::Duration::from_millis(millis));
    let to = symphonia::core::formats::SeekTo::Time { time, track_id: None };
    match s.probed.format.seek(symphonia::core::formats::SeekMode::Coarse, to) {
        Ok(seeked_to) => Ok(seeked_to.actual_ts),
        Err(e) => Err(classify_error(e)),
    }
}

} // verus!
