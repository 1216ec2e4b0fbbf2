//! Audio input media: what a WAV file's header says about its audio, and the
//! checks that the templates make on it.
//!
//! Reading the file is left to the caller: it reads the RIFF header, then
//! walks the chunks one header at a time as `wav_chunk` directs, hands the
//! `fmt ` chunk's bytes to `parse_fmt_chunk`, and ends with `finish_probe`.
use vstd::prelude::*;

use crate::text::{chars_of, nat_digits, owned, seq_lower, string_of, to_lower, u64_text};

verus! {

/// What probing an input audio file found.
#[derive(Debug, Clone)]
pub struct InputMediaInfo {
    pub path: String,
    pub channels: u16,
    pub sample_rate: u32,
    pub bits_per_sample: u16,
    pub channel_layout: String,
    pub codec_name: String,
}

/// Little-endian 16-bit number at `i`.
pub open spec fn le16(b: Seq<u8>, i: int) -> int {
    b[i] + 256 * b[i + 1]
}

/// Little-endian 32-bit number at `i`.
pub open spec fn le32(b: Seq<u8>, i: int) -> int {
    b[i] + 256 * b[i + 1] + 65536 * b[i + 2] + 16777216 * b[i + 3]
}

fn read_le16(b: &[u8], i: usize) -> (r: u16)
    requires
        i + 2 <= b@.len(),
    ensures
        r == le16(b@, i as int),
{
    (b[i] as u16) + (b[i + 1] as u16) * 256
}

fn read_le32(b: &[u8], i: usize) -> (r: u32)
    requires
        i + 4 <= b@.len(),
    ensures
        r == le32(b@, i as int),
{
    (b[i] as u32) + (b[i + 1] as u32) * 256 + (b[i + 2] as u32) * 65536 + (b[i + 3] as u32)
        * 16777216
}

/// Channel layout named by a WAVE_FORMAT_EXTENSIBLE channel mask, if the
/// mask is one of the known speaker sets.
pub open spec fn mask_layout(mask: int) -> Option<Seq<char>> {
    if mask == 0x4 {
        Some("mono"@)
    } else if mask == 0x3 {
        Some("stereo"@)
    } else if mask == 0x3F {
        Some("5.1"@)
    } else if mask == 0x63F {
        Some("7.1"@)
    } else {
        None
    }
}

/// Channel layout guessed from the channel count alone.
pub open spec fn count_layout(channels: int) -> Seq<char> {
    if channels == 1 {
        "mono"@
    } else if channels == 2 {
        "stereo"@
    } else if channels == 6 {
        "5.1"@
    } else if channels == 8 {
        "7.1"@
    } else {
        "unknown"@
    }
}

/// Channel layout: the mask's, where it names a known set, else the count's.
pub open spec fn layout_name(channels: int, mask: Option<int>) -> Seq<char> {
    match mask {
        Some(m) => match mask_layout(m) {
            Some(l) => l,
            None => count_layout(channels),
        },
        None => count_layout(channels),
    }
}

/// Lower-case hexadecimal digit.
pub open spec fn hex_digit(d: int) -> char {
    if d < 10 {
        ((d + 48) as u32) as char
    } else {
        ((d + 87) as u32) as char
    }
}

/// `0x` and four lower-case hexadecimal digits of a 16-bit number.
pub open spec fn hex4(n: int) -> Seq<char> {
    seq!['0', 'x', hex_digit((n / 4096) % 16), hex_digit((n / 256) % 16), hex_digit((n / 16) % 16), hex_digit(n % 16)]
}

/// FFmpeg-style codec name of a WAV format tag at a sample size.
pub open spec fn codec_name(tag: int, bits: int) -> Seq<char> {
    if tag == 1 {
        "pcm_s"@ + nat_digits(bits as nat) + "le"@
    } else if tag == 3 {
        "pcm_f"@ + nat_digits(bits as nat) + "le"@
    } else {
        "format_"@ + hex4(tag) + "_"@ + nat_digits(bits as nat) + "bit"@
    }
}

/// Whether a `fmt ` chunk is WAVE_FORMAT_EXTENSIBLE with its extension.
pub open spec fn is_extensible(data: Seq<u8>) -> bool {
    le16(data, 0) == 0xFFFE && data.len() >= 40
}

/// Channel layout that a `fmt ` chunk describes.
pub open spec fn fmt_layout(data: Seq<u8>) -> Seq<char> {
    if is_extensible(data) {
        layout_name(le16(data, 2), Some(le32(data, 20)))
    } else {
        layout_name(le16(data, 2), None)
    }
}

/// Codec that a `fmt ` chunk describes (the sub-format's, when extensible).
pub open spec fn fmt_codec(data: Seq<u8>) -> Seq<char> {
    if is_extensible(data) {
        codec_name(le16(data, 24), le16(data, 14))
    } else {
        codec_name(le16(data, 0), le16(data, 14))
    }
}

pub open spec fn short_fmt_error(path: Seq<char>) -> Seq<char> {
    "invalid WAV fmt chunk in "@ + path + "; expected at least 16 bytes"@
}

/// The audio properties of a WAV `fmt ` chunk.
#[derive(Debug, Clone)]
pub struct ParsedFmt {
    pub channels: u16,
    pub sample_rate: u32,
    pub bits_per_sample: u16,
    pub channel_layout: String,
    pub codec_name: String,
}

/// Channel layout for a channel count and an optional channel mask.
pub fn infer_channel_layout(channels: u16, channel_mask: Option<u32>) -> (r: String)
    ensures
        r@ == layout_name(
            channels as int,
            match channel_mask {
                Some(m) => Some(m as int),
                None => None,
            },
        ),
{
    if let Some(mask) = channel_mask {
        if mask == 0x4 {
            return owned("mono");
        } else if mask == 0x3 {
            return owned("stereo");
        } else if mask == 0x3F {
            return owned("5.1");
        } else if mask == 0x63F {
            return owned("7.1");
        }
    }
    if channels == 1 {
        owned("mono")
    } else if channels == 2 {
        owned("stereo")
    } else if channels == 6 {
        owned("5.1")
    } else if channels == 8 {
        owned("7.1")
    } else {
        owned("unknown")
    }
}

fn hex_digit_exec(d: u16) -> (r: char)
    requires
        d < 16,
    ensures
        r == hex_digit(d as int),
{
    if d < 10 {
        ((d as u8) + 48) as char
    } else {
        ((d as u8) + 87) as char
    }
}

/// Codec name for a WAV format tag and sample size.
pub fn infer_codec_name(format_tag: u16, bits_per_sample: u16) -> (r: String)
    ensures
        r@ == codec_name(format_tag as int, bits_per_sample as int),
{
    let bits = u64_text(bits_per_sample as u64);
    if format_tag == 1 {
        let mut s = owned("pcm_s");
        s.append(bits.as_str());
        s.append("le");
        s
    } else if format_tag == 3 {
        let mut s = owned("pcm_f");
        s.append(bits.as_str());
        s.append("le");
        s
    } else {
        let mut h: Vec<char> = Vec::new();
        h.push('0');
        h.push('x');
        h.push(hex_digit_exec((format_tag / 4096) % 16));
        h.push(hex_digit_exec((format_tag / 256) % 16));
        h.push(hex_digit_exec((format_tag / 16) % 16));
        h.push(hex_digit_exec(format_tag % 16));
        assert(h@ =~= hex4(format_tag as int));
        let hs = string_of(&h);
        let mut s = owned("format_");
        s.append(hs.as_str());
        s.append("_");
        s.append(bits.as_str());
        s.append("bit");
        s
    }
}

/// Reads the audio properties from the bytes of a `fmt ` chunk; `path`
/// names the file in the error.
pub fn parse_fmt_chunk(path: &str, data: &[u8]) -> (r: Result<ParsedFmt, String>)
    ensures
        r is Err <==> data@.len() < 16,
        r matches Err(e) ==> e@ == short_fmt_error(path@),
        r matches Ok(f) ==> {
            &&& f.channels == le16(data@, 2)
            &&& f.sample_rate == le32(data@, 4)
            &&& f.bits_per_sample == le16(data@, 14)
            &&& f.channel_layout@ == fmt_layout(data@)
            &&& f.codec_name@ == fmt_codec(data@)
        },
{
    if data.len() < 16 {
        let mut e = owned("invalid WAV fmt chunk in ");
        e.append(path);
        e.append("; expected at least 16 bytes");
        return Err(e);
    }
    let format_tag = read_le16(data, 0);
    let channels = read_le16(data, 2);
    let sample_rate = read_le32(data, 4);
    let bits_per_sample = read_le16(data, 14);
    let (channel_layout, codec_name) = if format_tag == 0xFFFE && data.len() >= 40 {
        let channel_mask = read_le32(data, 20);
        let sub_format = read_le16(data, 24);
        (
            infer_channel_layout(channels, Some(channel_mask)),
            infer_codec_name(sub_format, bits_per_sample),
        )
    } else {
        (infer_channel_layout(channels, None), infer_codec_name(format_tag, bits_per_sample))
    };
    Ok(ParsedFmt { channels, sample_rate, bits_per_sample, channel_layout, codec_name })
}

pub open spec fn extension_error(path: Seq<char>) -> Seq<char> {
    "unsupported input audio format for "@ + path
        + "; only wav/bwf/adm-wav inputs are currently supported"@
}

/// Checks that an input audio file is a WAV file by its extension (empty
/// where the path has none), ignoring ASCII case.
pub fn check_audio_extension(path: &str, extension: &str) -> (r: Result<(), String>)
    ensures
        r is Ok <==> seq_lower(extension@) == "wav"@,
        r matches Err(e) ==> e@ == extension_error(path@),
{
    let lower = to_lower(extension);
    let l = chars_of(lower.as_str());
    proof {
        reveal_strlit("wav");
    }
    if l.len() == 3 && l[0] == 'w' && l[1] == 'a' && l[2] == 'v' {
        assert(l@ =~= "wav"@);
        Ok(())
    } else {
        let mut e = owned("unsupported input audio format for ");
        e.append(path);
        e.append("; only wav/bwf/adm-wav inputs are currently supported");
        Err(e)
    }
}

pub open spec fn header_read_error(path: Seq<char>) -> Seq<char> {
    "failed to read RIFF header from "@ + path
}

pub open spec fn container_error(path: Seq<char>) -> Seq<char> {
    "unsupported wav container in "@ + path + "; expected RIFF/WAVE"@
}

/// Whether the first twelve bytes of a file are a RIFF/WAVE header.
pub open spec fn is_riff_wave(h: Seq<u8>) -> bool {
    &&& h.len() >= 12
    &&& h.subrange(0, 4) == seq![0x52u8, 0x49u8, 0x46u8, 0x46u8]
    &&& h.subrange(8, 12) == seq![0x57u8, 0x41u8, 0x56u8, 0x45u8]
}

/// Checks the RIFF/WAVE header of a file, given its first bytes (up to
/// twelve; fewer where the file is shorter).
pub fn check_riff_header(path: &str, header: &[u8]) -> (r: Result<(), String>)
    ensures
        r is Ok <==> is_riff_wave(header@),
        r matches Err(e) ==> e@ == if header@.len() < 12 {
            header_read_error(path@)
        } else {
            container_error(path@)
        },
{
    if header.len() < 12 {
        let mut e = owned("failed to read RIFF header from ");
        e.append(path);
        return Err(e);
    }
    let ok = header[0] == 0x52 && header[1] == 0x49 && header[2] == 0x46 && header[3] == 0x46
        && header[8] == 0x57 && header[9] == 0x41 && header[10] == 0x56 && header[11] == 0x45;
    if ok {
        assert(header@.subrange(0, 4) =~= seq![0x52u8, 0x49u8, 0x46u8, 0x46u8]);
        assert(header@.subrange(8, 12) =~= seq![0x57u8, 0x41u8, 0x56u8, 0x45u8]);
        Ok(())
    } else {
        assert(!is_riff_wave(header@)) by {
            if is_riff_wave(header@) {
                assert(header@.subrange(0, 4)[0] == header@[0]);
                assert(header@.subrange(0, 4)[1] == header@[1]);
                assert(header@.subrange(0, 4)[2] == header@[2]);
                assert(header@.subrange(0, 4)[3] == header@[3]);
                assert(header@.subrange(8, 12)[0] == header@[8]);
                assert(header@.subrange(8, 12)[1] == header@[9]);
                assert(header@.subrange(8, 12)[2] == header@[10]);
                assert(header@.subrange(8, 12)[3] == header@[11]);
            }
        }
        let mut e = owned("unsupported wav container in ");
        e.append(path);
        e.append("; expected RIFF/WAVE");
        Err(e)
    }
}

/// What to do with one RIFF chunk: read it as the `fmt ` chunk, or skip it;
/// then move past `skip_after` more bytes (the chunk's size, plus the pad
/// byte of an odd-sized chunk) counted from the end of its header.
#[derive(Debug, Clone, Copy)]
pub struct WavChunk {
    pub is_fmt: bool,
    pub size: u32,
    pub skip_after: u64,
}

/// Decodes an eight-byte RIFF chunk header.
pub fn wav_chunk(header: &[u8]) -> (r: WavChunk)
    requires
        header@.len() == 8,
    ensures
        r.is_fmt == (header@.subrange(0, 4) == seq![0x66u8, 0x6du8, 0x74u8, 0x20u8]),
        r.size == le32(header@, 4),
        r.skip_after == r.size + r.size % 2,
{
    let is_fmt = header[0] == 0x66 && header[1] == 0x6d && header[2] == 0x74 && header[3] == 0x20;
    proof {
        let h = header@.subrange(0, 4);
        assert(h[0] == header@[0] && h[1] == header@[1] && h[2] == header@[2] && h[3] == header@[3]);
        if is_fmt {
            assert(h =~= seq![0x66u8, 0x6du8, 0x74u8, 0x20u8]);
        }
    }
    let size = read_le32(header, 4);
    let skip_after = (size as u64) + (size as u64) % 2;
    WavChunk { is_fmt, size, skip_after }
}

pub open spec fn missing_fmt_error(path: Seq<char>) -> Seq<char> {
    "missing WAV fmt chunk in "@ + path
}

/// The probe's result once the chunks are walked: the last `fmt ` chunk
/// read, or an error where there was none.
pub fn finish_probe(path: &str, fmt: Option<ParsedFmt>) -> (r: Result<InputMediaInfo, String>)
    ensures
        r is Ok <==> fmt is Some,
        r matches Err(e) ==> e@ == missing_fmt_error(path@),
        r matches Ok(info) ==> fmt matches Some(f) && {
            &&& info.path@ == path@
            &&& info.channels == f.channels
            &&& info.sample_rate == f.sample_rate
            &&& info.bits_per_sample == f.bits_per_sample
            &&& info.channel_layout@ == f.channel_layout@
            &&& info.codec_name@ == f.codec_name@
        },
{
    match fmt {
        None => {
            let mut e = owned("missing WAV fmt chunk in ");
            e.append(path);
            Err(e)
        },
        Some(f) => Ok(
            InputMediaInfo {
                path: owned(path),
                channels: f.channels,
                sample_rate: f.sample_rate,
                bits_per_sample: f.bits_per_sample,
                channel_layout: f.channel_layout,
                codec_name: f.codec_name,
            },
        ),
    }
}

/// Whether two inputs agree on channels, sample rate and sample size.
pub open spec fn same_format(a: InputMediaInfo, b: InputMediaInfo) -> bool {
    a.channels == b.channels && a.sample_rate == b.sample_rate && a.bits_per_sample
        == b.bits_per_sample
}

pub open spec fn format_triple(i: InputMediaInfo) -> Seq<char> {
    nat_digits(i.channels as nat) + "/"@ + nat_digits(i.sample_rate as nat) + "/"@ + nat_digits(
        i.bits_per_sample as nat,
    )
}

pub open spec fn inconsistent_error(first: InputMediaInfo, other: InputMediaInfo) -> Seq<char> {
    "album mode requires consistent audio input media; expected channels/sample_rate/bits_per_sample = "@
        + format_triple(first) + ", got "@ + format_triple(other) + " for "@ + other.path@
}

fn format_triple_exec(i: &InputMediaInfo) -> (r: String)
    ensures
        r@ == format_triple(*i),
{
    let mut s = u64_text(i.channels as u64);
    s.append("/");
    s.append(u64_text(i.sample_rate as u64).as_str());
    s.append("/");
    s.append(u64_text(i.bits_per_sample as u64).as_str());
    s
}

/// Checks that every input has the first input's channels, sample rate and
/// sample size; the first one that differs is named in the error.
pub fn validate_consistent_audio_inputs(inputs: &Vec<InputMediaInfo>) -> (r: Result<(), String>)
    ensures
        r is Ok <==> forall|i: int| 1 <= i < inputs@.len() ==> same_format(inputs@[0], #[trigger] inputs@[i]),
        r matches Err(e) ==> exists|i: int|
            1 <= i < inputs@.len() && !same_format(inputs@[0], #[trigger] inputs@[i]) && (forall|j: int|
                1 <= j < i ==> same_format(inputs@[0], #[trigger] inputs@[j])) && e@ == inconsistent_error(
                inputs@[0],
                inputs@[i],
            ),
        r is Ok <==> forall|i: int|
            0 <= i < inputs@.len() ==> (#[trigger] inputs@[i]).channels == inputs@[0].channels
                && inputs@[i].sample_rate == inputs@[0].sample_rate && inputs@[i].bits_per_sample
                == inputs@[0].bits_per_sample,
{
    proof {
        law_consistent_inputs_share_format(inputs@);
    }
    if inputs.len() == 0 {
        return Ok(());
    }
    let first = &inputs[0];
    let mut k: usize = 1;
    while k < inputs.len()
        invariant
            1 <= k <= inputs.len(),
            *first == inputs@[0],
            forall|j: int| 1 <= j < k ==> same_format(inputs@[0], #[trigger] inputs@[j]),
        decreases inputs.len() - k,
    {
        let info = &inputs[k];
        if info.channels != first.channels || info.sample_rate != first.sample_rate
            || info.bits_per_sample != first.bits_per_sample {
            let mut e = owned(
                "album mode requires consistent audio input media; expected channels/sample_rate/bits_per_sample = ",
            );
            e.append(format_triple_exec(first).as_str());
            e.append(", got ");
            e.append(format_triple_exec(info).as_str());
            e.append(" for ");
            e.append(info.path.as_str());
            assert(!same_format(inputs@[0], inputs@[k as int]));
            return Err(e);
        }
        k += 1;
    }
    Ok(())
}


/// Inputs are consistent exactly when every one has the first one's
/// channels, sample rate and sample size.
pub proof fn law_consistent_inputs_share_format(inputs: Seq<InputMediaInfo>)
    ensures
        (forall|i: int| 1 <= i < inputs.len() ==> same_format(inputs[0], #[trigger] inputs[i])) <==> (forall|i: int|
            0 <= i < inputs.len() ==> (#[trigger] inputs[i]).channels == inputs[0].channels
                && inputs[i].sample_rate == inputs[0].sample_rate && inputs[i].bits_per_sample
                == inputs[0].bits_per_sample),
{
    if forall|i: int| 1 <= i < inputs.len() ==> same_format(inputs[0], #[trigger] inputs[i]) {
        assert forall|i: int| 0 <= i < inputs.len() implies (#[trigger] inputs[i]).channels == inputs[0].channels
            && inputs[i].sample_rate == inputs[0].sample_rate && inputs[i].bits_per_sample
            == inputs[0].bits_per_sample by {
            if i >= 1 {
                assert(same_format(inputs[0], inputs[i]));
            }
        }
    }
}

} // verus!
