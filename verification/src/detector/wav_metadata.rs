//! RIFF/WAVE container layout: the format chunk and where the PCM samples lie.
use vstd::prelude::*;

verus! {

/// The fields of a WAVE `fmt ` chunk that the audio analysis reads.
#[derive(Debug, Clone, Copy, PartialEq, Eq, Structural)]
pub struct WavFormat {
    pub channels: u16,
    pub sample_rate: u32,
    pub bits_per_sample: u16,
}

/// A WAVE file's format and the byte range of its sample data.
#[derive(Debug, Clone, Copy, PartialEq, Eq, Structural)]
pub struct WavInfo {
    pub fmt: WavFormat,
    pub pcm_start: usize,
    pub pcm_end: usize,
}

/// The little-endian 16-bit integer stored at `off`.
pub open spec fn le_u16(d: Seq<u8>, off: int) -> int {
    d[off] + d[off + 1] * 0x100
}

/// The little-endian 32-bit integer stored at `off`.
pub open spec fn le_u32(d: Seq<u8>, off: int) -> int {
    d[off] + d[off + 1] * 0x100 + d[off + 2] * 0x10000 + d[off + 3] * 0x1000000
}

pub open spec fn four(a: u8, b: u8, c: u8, e: u8) -> Seq<u8> {
    seq![a, b, c, e]
}

/// The format stored in a `fmt ` chunk body starting at `body`.
pub open spec fn format_at(d: Seq<u8>, body: int) -> WavFormat {
    WavFormat {
        channels: le_u16(d, body + 2) as u16,
        sample_rate: le_u32(d, body + 4) as u32,
        bits_per_sample: le_u16(d, body + 14) as u16,
    }
}

/// Walks the chunks from `pos`: each is a 4-byte id, a little-endian 32-bit
/// size and the body, padded to an even length. The first `fmt ` chunk with a
/// body of at least 16 bytes gives the format; the first `data` chunk gives
/// the sample range, cut at the end of the file. The walk stops once both are
/// found, or at a header or chunk that does not fit.
pub open spec fn wav_walk(
    d: Seq<u8>,
    pos: int,
    fmt: Option<WavFormat>,
    pcm: Option<(int, int)>,
) -> (Option<WavFormat>, Option<(int, int)>)
    decreases d.len() - pos,
{
    if pos < 0 || pos + 8 > d.len() || (fmt is Some && pcm is Some) {
        (fmt, pcm)
    } else {
        let id = d.subrange(pos, pos + 4);
        let size = le_u32(d, pos + 4);
        let body = pos + 8;
        let body_end = if body + size <= d.len() {
            body + size
        } else {
            d.len() as int
        };
        let fmt2 = if fmt is None && id == four(0x66, 0x6d, 0x74, 0x20) && size >= 16 && body + 16
            <= d.len() {
            Some(format_at(d, body))
        } else {
            fmt
        };
        let pcm2 = if pcm is None && id == four(0x64, 0x61, 0x74, 0x61) {
            Some((body, body_end))
        } else {
            pcm
        };
        let next = body + size + size % 2;
        if next > d.len() {
            (fmt2, pcm2)
        } else {
            wav_walk(d, next, fmt2, pcm2)
        }
    }
}

/// The layout of a WAVE file: `RIFF` at 0 and `WAVE` at 8, then chunks from
/// byte 12; present when both a format and a data chunk are found.
pub open spec fn spec_parse_wav(d: Seq<u8>) -> Option<(WavFormat, int, int)> {
    if d.len() < 12 || d.subrange(0, 4) != four(0x52, 0x49, 0x46, 0x46) || d.subrange(8, 12) != four(
        0x57,
        0x41,
        0x56,
        0x45,
    ) {
        None
    } else {
        match wav_walk(d, 12, None, None) {
            (Some(f), Some((s, e))) => Some((f, s, e)),
            _ => None,
        }
    }
}

fn tag_at(data: &[u8], pos: usize, a: u8, b: u8, c: u8, e: u8) -> (r: bool)
    requires
        pos + 4 <= data@.len(),
    ensures
        r == (data@.subrange(pos as int, pos + 4) == four(a, b, c, e)),
{
    let r = data[pos] == a && data[pos + 1] == b && data[pos + 2] == c && data[pos + 3] == e;
    proof {
        let s = data@.subrange(pos as int, pos + 4);
        if r {
            assert(s =~= four(a, b, c, e));
        } else if s == four(a, b, c, e) {
            assert(s[0] == a && s[1] == b && s[2] == c && s[3] == e);
        }
    }
    r
}

fn read_le_u16(data: &[u8], off: usize) -> (r: u16)
    requires
        off + 2 <= data@.len(),
    ensures
        r as int == le_u16(data@, off as int),
{
    (data[off] as u16) + (data[off + 1] as u16) * 0x100
}

fn read_le_u32(data: &[u8], off: usize) -> (r: u32)
    requires
        off + 4 <= data@.len(),
    ensures
        r as int == le_u32(data@, off as int),
{
    (data[off] as u32) + (data[off + 1] as u32) * 0x100 + (data[off + 2] as u32) * 0x10000 + (data[off + 3] as u32)
        * 0x1000000
}

pub open spec fn info_view(r: Option<WavInfo>) -> Option<(WavFormat, int, int)> {
    match r {
        Some(w) => Some((w.fmt, w.pcm_start as int, w.pcm_end as int)),
        None => None,
    }
}

pub open spec fn pcm_view(p: Option<(usize, usize)>) -> Option<(int, int)> {
    match p {
        Some(q) => Some((q.0 as int, q.1 as int)),
        None => None,
    }
}

/// Parses the layout of a WAVE file.
pub fn parse_wav_full(data: &[u8]) -> (r: Option<WavInfo>)
    requires
        data@.len() <= isize::MAX,
    ensures
        info_view(r) == spec_parse_wav(data@),
        r matches Some(w) ==> w.pcm_start <= w.pcm_end <= data@.len(),
{
    let len = data.len();
    if len < 12 || !tag_at(data, 0, 0x52, 0x49, 0x46, 0x46) || !tag_at(data, 8, 0x57, 0x41, 0x56, 0x45) {
        return None;
    }
    let ghost result = wav_walk(data@, 12, None, None);
    let mut fmt: Option<WavFormat> = None;
    let mut pcm: Option<(usize, usize)> = None;
    let mut pos: usize = 12;
    loop
        invariant_except_break
            result == wav_walk(data@, pos as int, fmt, pcm_view(pcm)),
        invariant
            len == data@.len() <= isize::MAX,
            12 <= pos <= len,
            pcm matches Some(q) ==> q.0 <= q.1 <= len,
        ensures
            result == (fmt, pcm_view(pcm)),
            pcm matches Some(q) ==> q.0 <= q.1 <= len,
        decreases len - pos,
    {
        if pos + 8 > len || (fmt.is_some() && pcm.is_some()) {
            break;
        }
        let is_fmt = tag_at(data, pos, 0x66, 0x6d, 0x74, 0x20);
        let is_data = tag_at(data, pos, 0x64, 0x61, 0x74, 0x61);
        let size32 = read_le_u32(data, pos + 4);
        let size = size32 as usize;
        let body = pos + 8;
        let body_end = if size <= len - body {
            body + size
        } else {
            len
        };
        if fmt.is_none() && is_fmt && size >= 16 && body + 16 <= len {
            let channels = read_le_u16(data, body + 2);
            let sample_rate = read_le_u32(data, body + 4);
            let bits_per_sample = read_le_u16(data, body + 14);
            assert(channels == le_u16(data@, body + 2) as u16);
            assert(sample_rate == le_u32(data@, body + 4) as u32);
            assert(bits_per_sample == le_u16(data@, body + 14) as u16);
            fmt = Some(WavFormat { channels, sample_rate, bits_per_sample });
        }
        if pcm.is_none() && is_data {
            pcm = Some((body, body_end));
        }
        let pad: usize = size % 2;
        if size > len - body || pad > len - body - size {
            break;
        }
        pos = body + size + pad;
    }
    match (fmt, pcm) {
        (Some(f), Some((s, e))) => Some(WavInfo { fmt: f, pcm_start: s, pcm_end: e }),
        _ => None,
    }
}

} // verus!
