//! The decisions of streaming a downloaded audio file: which track is decoded, which
//! packets are skipped, which failures end the stream. The caller probes the bytes,
//! reads the packets and decodes them, and asks these functions what to do next.
use vstd::prelude::*;

verus! {

/// Why a stream ended in failure.
#[derive(Clone, Copy, PartialEq, Eq, Debug)]
pub enum StreamError {
    /// The bytes are no audio format the decoder library knows.
    Probe,
    /// The file has no default audio track.
    NoDefaultTrack,
    /// The default track has no audio codec parameters.
    NoAudioParameters,
    /// Reading the next packet failed.
    Read,
    /// Decoding failed in a way that is no decode error of one packet.
    Decode,
}

/// What decoding one packet gave: samples, a decode error of that packet (it is
/// skipped), or another failure.
#[derive(Clone, Copy, PartialEq, Eq, Debug)]
pub enum DecodeStep {
    Decoded,
    DecodeError,
    Failed,
}

/// What the caller does next: skip the packet, decode it, go on to the next packet,
/// or end the stream with the given outcome.
#[derive(Clone, Copy, PartialEq, Eq, Debug)]
pub enum StreamStep {
    Skip,
    Decode,
    Continue,
    Done(Result<(), StreamError>),
}

/// The track a stream decodes: `probed` tells whether the bytes were recognised, and
/// `track` gives the default audio track's id and whether it has audio codec
/// parameters. `Ok` with the track's id exactly when the bytes were recognised and the
/// default track has audio parameters; otherwise the first failure in that order.
pub fn stream_start(probed: bool, track: Option<(u32, bool)>) -> (r: Result<u32, StreamError>)
    ensures
        !probed ==> r == Err::<u32, StreamError>(StreamError::Probe),
        probed ==> r == (match track {
            None => Err(StreamError::NoDefaultTrack),
            Some((id, has_audio)) => if has_audio {
                Ok(id)
            } else {
                Err(StreamError::NoAudioParameters)
            },
        }),
{
    if !probed {
        return Err(StreamError::Probe);
    }
    match track {
        None => Err(StreamError::NoDefaultTrack),
        Some((id, has_audio)) => {
            if has_audio {
                Ok(id)
            } else {
                Err(StreamError::NoAudioParameters)
            }
        },
    }
}

/// One step of the stream for the track `track_id`. `packet` is what reading the next
/// packet gave: its track's id, the end of the packets (`None`), or a failure.
/// `decoded` is what decoding that packet gave, once it was decoded. A read failure
/// ends the stream in failure and the end of the packets ends it in success; another
/// track's packet is skipped; the stream's own packet is decoded first, then a
/// failure that is no decode error ends the stream, and anything else goes on.
pub fn stream_step(track_id: u32, packet: Result<Option<u32>, ()>, decoded: Option<DecodeStep>) -> (r: StreamStep)
    ensures
        r == (match packet {
            Err(_) => StreamStep::Done(Err(StreamError::Read)),
            Ok(None) => StreamStep::Done(Ok(())),
            Ok(Some(id)) => if id != track_id {
                StreamStep::Skip
            } else {
                match decoded {
                    None => StreamStep::Decode,
                    Some(DecodeStep::Failed) => StreamStep::Done(Err(StreamError::Decode)),
                    Some(_) => StreamStep::Continue,
                }
            },
        }),
{
    match packet {
        Err(_) => StreamStep::Done(Err(StreamError::Read)),
        Ok(None) => StreamStep::Done(Ok(())),
        Ok(Some(id)) => {
            if id != track_id {
                StreamStep::Skip
            } else {
                match decoded {
                    None => StreamStep::Decode,
                    Some(DecodeStep::Failed) => StreamStep::Done(Err(StreamError::Decode)),
                    Some(_) => StreamStep::Continue,
                }
            }
        },
    }
}

} // verus!
