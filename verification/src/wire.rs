//! Text frames exchanged with the speech service.
//!
//! Outbound, a block of samples travels as
//! `{"type":"audio","data":"<base64 of the little-endian 16-bit samples>"}` and
//! the end of the audio is announced by `{"type":"end_stream"}`.

use base64::Engine;
use vstd::prelude::*;

verus! {

/// The frame that tells the service that no more audio will follow.
pub const END_STREAM_FRAME: &'static str = "{\"type\":\"end_stream\"}";

/// What precedes the payload in an audio frame.
pub const AUDIO_FRAME_HEAD: &'static str = "{\"type\":\"audio\",\"data\":\"";

/// What follows the payload in an audio frame.
pub const AUDIO_FRAME_TAIL: &'static str = "\"}";

/// The two bytes of one sample, low byte first, in two's complement.
pub open spec fn sample_le_bytes(sample: i16) -> Seq<u8> {
    let unsigned: int = if sample >= 0 {
        sample as int
    } else {
        sample as int + 0x1_0000
    };
    seq![(unsigned % 0x100) as u8, (unsigned / 0x100) as u8]
}

/// The bytes of a block of samples: two per sample, in sample order.
pub open spec fn pcm16_le_bytes(samples: Seq<i16>) -> Seq<u8>
    decreases samples.len(),
{
    if samples.len() == 0 {
        Seq::empty()
    } else {
        pcm16_le_bytes(samples.drop_last()) + sample_le_bytes(samples.last())
    }
}

/// The text of the audio frame that carries `payload`.
pub open spec fn audio_frame_text(payload: Seq<char>) -> Seq<char> {
    AUDIO_FRAME_HEAD@ + payload + AUDIO_FRAME_TAIL@
}

/// Whether a block of `samples` samples can be framed on this machine: its
/// bytes and their base64 text must each have a length that fits in `usize`.
pub open spec fn frame_fits(samples: nat) -> bool {
    (2 * samples) / 3 * 4 + 4 <= usize::MAX
}

/// The standard base64 text (RFC 4648 alphabet, with padding) of `bytes`, as
/// `base64::engine::general_purpose::STANDARD` produces it.
pub uninterp spec fn base64_standard(bytes: Seq<u8>) -> Seq<char>;

/// Calls `base64::Engine::encode` on the `STANDARD` engine. Trusted: the
/// result is the engine's encoding of exactly these bytes. The engine panics
/// when the encoded length overflows `usize`, which the precondition rules out.
#[verifier::external_body]
fn base64_encode(bytes: &[u8]) -> (text: String)
    requires
        bytes@.len() / 3 * 4 + 4 <= usize::MAX,
    ensures
        text@ == base64_standard(bytes@),
{
    base64::engine::general_purpose::STANDARD.encode(bytes)
}

pub proof fn lemma_pcm16_le_bytes_len(samples: Seq<i16>)
    ensures
        pcm16_le_bytes(samples).len() == 2 * samples.len(),
    decreases samples.len(),
{
    if samples.len() > 0 {
        lemma_pcm16_le_bytes_len(samples.drop_last());
    }
}

/// Serialises samples as little-endian 16-bit values.
pub fn pcm16_to_le_bytes(samples: &[i16]) -> (bytes: Vec<u8>)
    requires
        2 * samples@.len() <= usize::MAX,
    ensures
        bytes@ == pcm16_le_bytes(samples@),
        bytes@.len() == 2 * samples@.len(),
{
    let mut bytes: Vec<u8> = Vec::new();
    let mut i: usize = 0;
    while i < samples.len()
        invariant
            0 <= i <= samples@.len(),
            bytes@ == pcm16_le_bytes(samples@.take(i as int)),
        decreases samples@.len() - i,
    {
        let sample: i16 = samples[i];
        let unsigned: u32 = if sample >= 0 {
            sample as u32
        } else {
            (sample as i32 + 0x1_0000) as u32
        };
        let low: u8 = (unsigned % 0x100) as u8;
        let high: u8 = (unsigned / 0x100) as u8;
        bytes.push(low);
        bytes.push(high);
        proof {
            let next = samples@.take(i + 1);
            assert(next.drop_last() =~= samples@.take(i as int));
            assert(next.last() == sample);
            assert(bytes@ =~= pcm16_le_bytes(next.drop_last()) + sample_le_bytes(sample));
        }
        i += 1;
    }
    proof {
        assert(samples@.take(samples@.len() as int) =~= samples@);
        lemma_pcm16_le_bytes_len(samples@);
    }
    bytes
}

/// Wraps an already encoded payload into an audio frame.
pub fn audio_frame(payload: &str) -> (frame: String)
    ensures
        frame@ == audio_frame_text(payload@),
{
    let mut frame = String::from_str(AUDIO_FRAME_HEAD);
    frame.append(payload);
    frame.append(AUDIO_FRAME_TAIL);
    frame
}

/// The audio frame for a block of samples.
pub fn encode_audio_frame(samples: &[i16]) -> (frame: String)
    requires
        frame_fits(samples@.len()),
    ensures
        frame@ == audio_frame_text(base64_standard(pcm16_le_bytes(samples@))),
{
    let bytes = pcm16_to_le_bytes(samples);
    let payload = base64_encode(bytes.as_slice());
    audio_frame(payload.as_str())
}

} // verus!
