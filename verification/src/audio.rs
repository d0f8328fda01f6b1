//! Audio as the services carry it: 16-bit PCM samples, little-endian, in base64.
use crate::error::{Failure, GeminiError};
use crate::text::join;
use base64::Engine;
use vstd::prelude::*;

verus! {

/// The bits of a sample read as an unsigned number.
pub open spec fn unsigned(sample: i16) -> nat {
    if sample >= 0 {
        sample as nat
    } else {
        (sample + 0x1_0000) as nat
    }
}

/// The less significant byte of a sample.
pub open spec fn low_byte(sample: i16) -> u8 {
    (unsigned(sample) % 256) as u8
}

/// The more significant byte of a sample.
pub open spec fn high_byte(sample: i16) -> u8 {
    (unsigned(sample) / 256) as u8
}

/// The sample whose bytes are `low` and `high`.
pub open spec fn sample_of(low: u8, high: u8) -> i16 {
    let bits = low + 256 * high;
    if bits < 0x8000 {
        bits as i16
    } else {
        (bits - 0x1_0000) as i16
    }
}

/// The samples as bytes, the less significant byte of each first.
pub open spec fn pcm_bytes(samples: Seq<i16>) -> Seq<u8> {
    Seq::new(
        2 * samples.len(),
        |i: int|
            if i % 2 == 0 {
                low_byte(samples[i / 2])
            } else {
                high_byte(samples[i / 2])
            },
    )
}

/// The samples that the bytes hold; an odd byte at the end belongs to none.
pub open spec fn pcm_samples(bytes: Seq<u8>) -> Seq<i16> {
    Seq::new(bytes.len() / 2, |i: int| sample_of(bytes[2 * i], bytes[2 * i + 1]))
}

/// Samples written as bytes and read again are the same samples.
pub proof fn law_samples_survive_bytes(samples: Seq<i16>)
    ensures
        pcm_samples(pcm_bytes(samples)) == samples,
{
    let bytes = pcm_bytes(samples);
    assert forall|i: int| 0 <= i < samples.len() implies pcm_samples(bytes)[i] == samples[i] by {
        assert(bytes[2 * i] == low_byte(samples[i]));
        assert(bytes[2 * i + 1] == high_byte(samples[i]));
    }
    assert(pcm_samples(bytes) =~= samples);
}

/// Bytes read as samples and written again are the same bytes, without the odd
/// one at the end.
pub proof fn law_bytes_survive_samples(bytes: Seq<u8>)
    ensures
        pcm_bytes(pcm_samples(bytes)) == bytes.take(bytes.len() - bytes.len() % 2),
{
    let samples = pcm_samples(bytes);
    let kept = bytes.take(bytes.len() - bytes.len() % 2);
    assert forall|i: int| 0 <= i < kept.len() implies pcm_bytes(samples)[i] == kept[i] by {
        let k = i / 2;
        assert(samples[k] == sample_of(bytes[2 * k], bytes[2 * k + 1]));
    }
    assert(pcm_bytes(samples) =~= kept);
}

/// The samples as little-endian bytes.
pub fn encode_pcm16(samples: &[i16]) -> (r: Vec<u8>)
    ensures
        r@ == pcm_bytes(samples@),
{
    let mut bytes: Vec<u8> = Vec::new();
    for i in 0..samples.len()
        invariant
            bytes@ == pcm_bytes(samples@.take(i as int)),
    {
        let sample: i16 = samples[i];
        let bits: u16 = if sample >= 0 {
            sample as u16
        } else {
            (sample as i32 + 0x1_0000) as u16
        };
        assert(bits == unsigned(sample));
        bytes.push((bits % 256) as u8);
        bytes.push((bits / 256) as u8);
        assert(samples@.take(i + 1) =~= samples@.take(i as int).push(sample));
        assert(bytes@ =~= pcm_bytes(samples@.take(i + 1)));
    }
    assert(samples@.take(samples@.len() as int) =~= samples@);
    bytes
}

/// The samples of little-endian bytes. An odd byte at the end is dropped.
pub fn decode_pcm16(bytes: &[u8]) -> (r: Vec<i16>)
    ensures
        r@ == pcm_samples(bytes@),
{
    let count: usize = bytes.len() / 2;
    let mut samples: Vec<i16> = Vec::new();
    for i in 0..count
        invariant
            count == bytes.len() / 2,
            samples@ == pcm_samples(bytes@).take(i as int),
    {
        let bits: i32 = bytes[2 * i] as i32 + 256 * bytes[2 * i + 1] as i32;
        let sample: i16 = if bits < 0x8000 {
            bits as i16
        } else {
            (bits - 0x1_0000) as i16
        };
        assert(sample == sample_of(bytes@[2 * i], bytes@[2 * i + 1]));
        samples.push(sample);
        assert(samples@ =~= pcm_samples(bytes@).take(i + 1));
    }
    assert(samples@ =~= pcm_samples(bytes@));
    samples
}

/// The padded base64 text of the bytes.
pub uninterp spec fn base64_text(bytes: Seq<u8>) -> Seq<char>;

/// What the strict base64 decoder makes of a text: the bytes, or the display
/// text of the error.
pub uninterp spec fn base64_decoded(text: Seq<char>) -> Result<Seq<u8>, Seq<char>>;

/// The text decodes to these bytes.
pub open spec fn decodes_to(text: Seq<char>, bytes: Seq<u8>) -> bool {
    base64_decoded(text) == Ok::<Seq<u8>, Seq<char>>(bytes)
}

/// So many bytes have a base64 text that one allocation can hold.
pub open spec fn fits_base64(count: nat) -> bool {
    4 * ((count + 2) / 3) <= isize::MAX
}

/// So many samples have a base64 text that one allocation can hold.
pub open spec fn fits_audio_message(samples: nat) -> bool {
    fits_base64(2 * samples)
}

/// Whether so many samples have a base64 text that one allocation can hold.
pub fn can_encode(samples: usize) -> (r: bool)
    ensures
        r == fits_audio_message(samples as nat),
{
    samples as u128 <= 3 * (isize::MAX as u128 / 4) / 2
}

/// Calls `Engine::encode` of `base64::engine::general_purpose::STANDARD`. Claimed
/// of it: the text depends on the bytes alone, and decodes to them. It needs
/// room for four characters to every three bytes.
#[verifier::external_body]
fn base64_encode(bytes: &Vec<u8>) -> (r: String)
    requires
        fits_base64(bytes@.len()),
    ensures
        r@ == base64_text(bytes@),
        decodes_to(r@, bytes@),
{
    base64::engine::general_purpose::STANDARD.encode(bytes)
}

/// Calls `Engine::decode` of `base64::engine::general_purpose::STANDARD`. Claimed
/// of it: what comes back depends on the text alone.
#[verifier::external_body]
fn base64_decode(text: &str) -> (r: Result<Vec<u8>, String>)
    ensures
        bytes_outcome(r) == base64_decoded(text@),
{
    base64::engine::general_purpose::STANDARD.decode(text).map_err(|e| e.to_string())
}

/// What decoded bytes mean as audio: their samples, or the error to report.
pub open spec fn audio_of(decoded: Result<Seq<u8>, Seq<char>>) -> Result<Seq<i16>, Failure> {
    match decoded {
        Ok(bytes) => Ok(pcm_samples(bytes)),
        Err(e) => Err(Failure::DeserializationError("Base64 decode failed: "@ + e)),
    }
}

/// Decoded bytes as mathematics.
pub open spec fn bytes_outcome(r: Result<Vec<u8>, String>) -> Result<Seq<u8>, Seq<char>> {
    match r {
        Ok(bytes) => Ok(bytes@),
        Err(e) => Err(e@),
    }
}

/// Decoded audio as mathematics.
pub open spec fn samples_outcome(r: Result<Vec<i16>, GeminiError>) -> Result<Seq<i16>, Failure> {
    match r {
        Ok(samples) => Ok(samples@),
        Err(e) => Err(e@),
    }
}

/// The samples of decoded bytes, or the error to report where nothing was
/// decoded.
pub fn decoded_audio(decoded: Result<Vec<u8>, String>) -> (r: Result<Vec<i16>, GeminiError>)
    ensures
        samples_outcome(r) == audio_of(bytes_outcome(decoded)),
{
    match decoded {
        Ok(bytes) => Ok(decode_pcm16(bytes.as_slice())),
        Err(e) => Err(
            GeminiError::DeserializationError(join("Base64 decode failed: ", e.as_str())),
        ),
    }
}

/// The samples of a base64 text.
pub fn decode_audio(text: &str) -> (r: Result<Vec<i16>, GeminiError>)
    ensures
        samples_outcome(r) == audio_of(base64_decoded(text@)),
{
    decoded_audio(base64_decode(text))
}

/// The base64 text of the samples, which decodes to the same samples.
pub fn encode_audio(samples: &[i16]) -> (r: String)
    requires
        fits_audio_message(samples@.len()),
    ensures
        r@ == base64_text(pcm_bytes(samples@)),
        decodes_to(r@, pcm_bytes(samples@)),
        audio_of(base64_decoded(r@)) == Ok::<Seq<i16>, Failure>(samples@),
{
    proof {
        law_samples_survive_bytes(samples@);
    }
    let bytes = encode_pcm16(samples);
    base64_encode(&bytes)
}

/// The bytes of samples, two for each, hold each sample's bits with the less
/// significant byte first.
pub proof fn law_samples_are_little_endian(samples: Seq<i16>, i: int)
    requires
        0 <= i < samples.len(),
    ensures
        pcm_bytes(samples).len() == 2 * samples.len(),
        ({
            let bits = pcm_bytes(samples)[2 * i] + 256 * pcm_bytes(samples)[2 * i + 1];
            bits == samples[i] || bits == samples[i] + 0x1_0000
        }),
{
    assert(pcm_bytes(samples)[2 * i] == low_byte(samples[i]));
    assert(pcm_bytes(samples)[2 * i + 1] == high_byte(samples[i]));
}

/// Each two bytes hold a sample's bits, the less significant byte first.
pub proof fn law_bytes_are_little_endian(bytes: Seq<u8>, i: int)
    requires
        0 <= i < bytes.len() / 2,
    ensures
        pcm_samples(bytes).len() == bytes.len() / 2,
        ({
            let bits = bytes[2 * i] + 256 * bytes[2 * i + 1];
            pcm_samples(bytes)[i] == bits || pcm_samples(bytes)[i] == bits - 0x1_0000
        }),
{
}

/// Bytes that decode are heard, two to a sample; what does not decode is reported
/// with the decoder's own words.
pub proof fn law_audio_of_bytes(bytes: Seq<u8>, error: Seq<char>)
    ensures
        audio_of(Ok(bytes)) matches Ok(samples) && pcm_bytes(samples) == bytes.take(
            bytes.len() - bytes.len() % 2,
        ),
        audio_of(Err(error)) == Err::<Seq<i16>, Failure>(
            Failure::DeserializationError("Base64 decode failed: "@ + error),
        ),
{
    law_bytes_survive_samples(bytes);
}

/// Audio of up to several hundred million samples can be sent.
pub proof fn law_long_audio_fits(samples: nat)
    requires
        samples <= 800_000_000,
    ensures
        fits_audio_message(samples),
{
}

/// Decoded bytes and samples stand for themselves, and failures for their own words.
pub proof fn law_views_of_audio(
    bytes: Vec<u8>,
    samples: Vec<i16>,
    words: String,
    error: GeminiError,
)
    ensures
        bytes_outcome(Ok(bytes)) == Ok::<Seq<u8>, Seq<char>>(bytes@),
        bytes_outcome(Err(words)) == Err::<Seq<u8>, Seq<char>>(words@),
        samples_outcome(Ok(samples)) == Ok::<Seq<i16>, Failure>(samples@),
        samples_outcome(Err(error)) == Err::<Seq<i16>, Failure>(error@),
{
}

} // verus!
