//! Multimodal (audio in, text out) processing: the request and response types and
//! the WAV framing of recorded PCM audio.
use vstd::prelude::*;

use crate::bytes::{le16, le32, push_bytes, push_le16, push_le32, read_le16, read_le32, lemma_le16_roundtrip, lemma_le32_roundtrip};
use crate::llm::AppType;

pub mod openai;
pub mod prompt;

verus! {

/// A multimodal request: the recorded audio plus everything the prompt was built from.
#[derive(Clone, Debug)]
pub struct MultimodalRequest {
    /// WAV-encoded audio (PCM 16-bit mono wrapped in a WAV header).
    pub audio_wav: Vec<u8>,
    /// System prompt combining transcription and polish instructions.
    pub system_prompt: String,
    /// App context type for tone and formatting.
    pub app_type: AppType,
    /// Custom dictionary terms.
    pub dictionary: Vec<String>,
    /// Whether translation is enabled.
    pub translate_enabled: bool,
    /// Target language code for translation.
    pub target_lang: String,
    /// Text selected in the target application ("selected text mode").
    pub selected_text: Option<String>,
}

/// The text produced by a multimodal model.
#[derive(Clone, Debug)]
pub struct MultimodalResponse {
    pub text: String,
}

/// The ASCII tag `RIFF`.
pub open spec fn riff_tag() -> Seq<u8> {
    seq![0x52u8, 0x49u8, 0x46u8, 0x46u8]
}

/// The ASCII tag `WAVE`.
pub open spec fn wave_tag() -> Seq<u8> {
    seq![0x57u8, 0x41u8, 0x56u8, 0x45u8]
}

/// The ASCII tag `fmt ` (with a trailing space).
pub open spec fn fmt_tag() -> Seq<u8> {
    seq![0x66u8, 0x6du8, 0x74u8, 0x20u8]
}

/// The ASCII tag `data`.
pub open spec fn data_tag() -> Seq<u8> {
    seq![0x64u8, 0x61u8, 0x74u8, 0x61u8]
}

/// The 44-byte canonical WAV header of PCM 16-bit mono audio of `data_len` bytes at
/// `sample_rate` Hz: RIFF chunk, `fmt ` chunk (format 1, one channel, byte rate
/// `2 * sample_rate`, block align 2, 16 bits per sample), and the `data` chunk header.
pub open spec fn wav_header(data_len: nat, sample_rate: nat) -> Seq<u8> {
    riff_tag() + le32(36 + data_len) + wave_tag() + fmt_tag() + le32(16) + le16(1) + le16(1)
        + le32(sample_rate) + le32(sample_rate * 2) + le16(2) + le16(16) + data_tag() + le32(
        data_len,
    )
}

/// The WAV file that wraps `pcm`; the header records the length modulo 2^32.
pub open spec fn wav_file(pcm: Seq<u8>, sample_rate: nat) -> Seq<u8> {
    wav_header((pcm.len() as u32) as nat, sample_rate) + pcm
}

/// The inputs on which `build_wav` computes its header without overflow.
pub open spec fn wav_fits(pcm_len: nat, sample_rate: nat) -> bool {
    &&& (pcm_len as u32) + 36 <= u32::MAX
    &&& sample_rate * 16 <= u32::MAX
    &&& pcm_len + 44 <= usize::MAX
}

/// Appends four bytes.
fn push_tag(v: &mut Vec<u8>, a: u8, b: u8, c: u8, d: u8)
    ensures
        final(v)@ == old(v)@ + seq![a, b, c, d],
{
    v.push(a);
    v.push(b);
    v.push(c);
    v.push(d);
    assert(final(v)@ =~= old(v)@ + seq![a, b, c, d]);
}

/// Build a WAV file from raw PCM 16-bit mono audio.
pub fn build_wav(pcm: &[u8], sample_rate: u32) -> (wav: Vec<u8>)
    requires
        wav_fits(pcm@.len(), sample_rate as nat),
    ensures
        wav@ == wav_file(pcm@, sample_rate as nat),
{
    let data_len = pcm.len() as u32;
    let channels: u16 = 1;
    let bits_per_sample: u16 = 16;
    let byte_rate = sample_rate * (channels as u32) * (bits_per_sample as u32) / 8;
    let block_align = channels * bits_per_sample / 8;
    let file_size = 36 + data_len;
    let ghost n = data_len as nat;
    let ghost r = sample_rate as nat;

    let mut wav: Vec<u8> = Vec::with_capacity(44 + pcm.len());
    push_tag(&mut wav, 0x52u8, 0x49u8, 0x46u8, 0x46u8);
    assert(wav@ == riff_tag());
    push_le32(&mut wav, file_size);
    push_tag(&mut wav, 0x57u8, 0x41u8, 0x56u8, 0x45u8);
    push_tag(&mut wav, 0x66u8, 0x6du8, 0x74u8, 0x20u8);
    assert(wav@ == riff_tag() + le32(36 + n) + wave_tag() + fmt_tag());
    push_le32(&mut wav, 16u32);
    push_le16(&mut wav, 1u16);  // PCM
    push_le16(&mut wav, channels);
    push_le32(&mut wav, sample_rate);
    push_le32(&mut wav, byte_rate);
    push_le16(&mut wav, block_align);
    push_le16(&mut wav, bits_per_sample);
    push_tag(&mut wav, 0x64u8, 0x61u8, 0x74u8, 0x61u8);
    push_le32(&mut wav, data_len);
    assert(wav@ == wav_header(n, r));
    push_bytes(&mut wav, pcm);
    wav
}

/// Layout of a built WAV file: a reader of the canonical 44-byte header gets back the
/// tags, the RIFF size `36 + data length`, the format fields and the data length, and the
/// audio follows the header unchanged.
pub proof fn lemma_wav_layout(pcm: Seq<u8>, sample_rate: u32)
    requires
        wav_fits(pcm.len(), sample_rate as nat),
    ensures
        ({
            let f = wav_file(pcm, sample_rate as nat);
            let n = (pcm.len() as u32) as nat;
            &&& f.len() == 44 + pcm.len()
            &&& f.subrange(0, 4) == riff_tag()
            &&& read_le32(f.subrange(4, 8)) == 36 + n
            &&& f.subrange(8, 12) == wave_tag()
            &&& f.subrange(12, 16) == fmt_tag()
            &&& read_le32(f.subrange(16, 20)) == 16
            &&& read_le16(f.subrange(20, 22)) == 1
            &&& read_le16(f.subrange(22, 24)) == 1
            &&& read_le32(f.subrange(24, 28)) == sample_rate
            &&& read_le32(f.subrange(28, 32)) == 2 * sample_rate
            &&& read_le16(f.subrange(32, 34)) == 2
            &&& read_le16(f.subrange(34, 36)) == 16
            &&& f.subrange(36, 40) == data_tag()
            &&& read_le32(f.subrange(40, 44)) == n
            &&& f.subrange(44, f.len() as int) == pcm
        }),
{
    let f = wav_file(pcm, sample_rate as nat);
    let n32 = pcm.len() as u32;
    let n = n32 as nat;
    let size: u32 = (n32 + 36) as u32;
    let rate2: u32 = (sample_rate * 2) as u32;
    lemma_le32_roundtrip(size);
    lemma_le32_roundtrip(16u32);
    lemma_le16_roundtrip(1u16);
    lemma_le32_roundtrip(sample_rate);
    lemma_le32_roundtrip(rate2);
    lemma_le16_roundtrip(2u16);
    lemma_le16_roundtrip(16u16);
    lemma_le32_roundtrip(n32);
    assert(f.subrange(0, 4) =~= riff_tag());
    assert(f.subrange(4, 8) =~= le32(36 + n));
    assert(f.subrange(8, 12) =~= wave_tag());
    assert(f.subrange(12, 16) =~= fmt_tag());
    assert(f.subrange(16, 20) =~= le32(16));
    assert(f.subrange(20, 22) =~= le16(1));
    assert(f.subrange(22, 24) =~= le16(1));
    assert(f.subrange(24, 28) =~= le32(sample_rate as nat));
    assert(f.subrange(28, 32) =~= le32((sample_rate * 2) as nat));
    assert(f.subrange(32, 34) =~= le16(2));
    assert(f.subrange(34, 36) =~= le16(16));
    assert(f.subrange(36, 40) =~= data_tag());
    assert(f.subrange(40, 44) =~= le32(n));
    assert(f.subrange(44, f.len() as int) =~= pcm);
}

} // verus!
