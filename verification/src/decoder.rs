use vstd::prelude::*;

use crate::errors::TranscribeError;

verus! {

/// The 16-bit little-endian unsigned value stored at `pos`.
pub open spec fn le16(b: Seq<u8>, pos: int) -> u16
    recommends
        0 <= pos,
        pos + 2 <= b.len(),
{
    (b[pos] + 256 * b[pos + 1]) as u16
}

/// The 32-bit little-endian unsigned value stored at `pos`.
pub open spec fn le32(b: Seq<u8>, pos: int) -> u32
    recommends
        0 <= pos,
        pos + 4 <= b.len(),
{
    (b[pos] + 256 * b[pos + 1] + 65536 * b[pos + 2] + 16777216 * b[pos + 3]) as u32
}

/// The 16-bit little-endian two's-complement sample stored at `pos`, as a
/// mathematical integer in `[-32768, 32767]`.
pub open spec fn sample_at(b: Seq<u8>, pos: int) -> int
    recommends
        0 <= pos,
        pos + 2 <= b.len(),
{
    let u = le16(b, pos) as int;
    if u < 32768 {
        u
    } else {
        u - 65536
    }
}

/// Whether `b` opens with a RIFF header whose form type is WAVE.
pub open spec fn riff_ok(b: Seq<u8>) -> bool {
    &&& b.len() >= 12
    &&& b[0] == 82
    &&& b[1] == 73
    &&& b[2] == 70
    &&& b[3] == 70
    &&& b[8] == 87
    &&& b[9] == 65
    &&& b[10] == 86
    &&& b[11] == 69
}

/// Whether the four bytes at `pos` spell the chunk id `fmt `.
pub open spec fn is_fmt_id(b: Seq<u8>, pos: int) -> bool {
    b[pos] == 102 && b[pos + 1] == 109 && b[pos + 2] == 116 && b[pos + 3] == 32
}

/// Whether the four bytes at `pos` spell the chunk id `data`.
pub open spec fn is_data_id(b: Seq<u8>, pos: int) -> bool {
    b[pos] == 100 && b[pos + 1] == 97 && b[pos + 2] == 116 && b[pos + 3] == 97
}

/// The fields of a WAV `fmt ` chunk that the decoder reads.
#[derive(Debug, Clone, Copy, PartialEq, Eq, Structural)]
pub struct FmtInfo {
    pub audio_format: u16,
    pub channels: u16,
    pub sample_rate: u32,
    pub bits_per_sample: u16,
}

/// The `fmt ` fields as laid out at `pos` (the start of the chunk body).
pub open spec fn fmt_at(b: Seq<u8>, pos: int) -> FmtInfo {
    FmtInfo {
        audio_format: le16(b, pos),
        channels: le16(b, pos + 2),
        sample_rate: le32(b, pos + 4),
        bits_per_sample: le16(b, pos + 14),
    }
}

/// Where a WAV file's sample data lies, and the format that governs it.
pub struct DataLoc {
    pub fmt: FmtInfo,
    pub data_start: int,
    pub data_len: int,
}

/// Walks the RIFF chunk list from `pos`, remembering the last complete
/// `fmt ` chunk seen, until the `data` chunk: the scan yields the format and
/// the data chunk's position, or nothing when the chunk list is malformed,
/// truncated, or ends without both a `fmt ` and a `data` chunk.
pub open spec fn scan_chunks(b: Seq<u8>, pos: int, fmt: Option<FmtInfo>) -> Option<DataLoc>
    decreases b.len() - pos,
{
    if pos < 0 || pos + 8 > b.len() {
        None
    } else {
        let size = le32(b, pos + 4) as int;
        let body = pos + 8;
        if body + size > b.len() {
            None
        } else if is_data_id(b, pos) {
            match fmt {
                Some(f) => Some(DataLoc { fmt: f, data_start: body, data_len: size }),
                None => None,
            }
        } else if is_fmt_id(b, pos) && size < 16 {
            None
        } else {
            let fmt2 = if is_fmt_id(b, pos) {
                Some(fmt_at(b, body))
            } else {
                fmt
            };
            let next = body + size + (
            if size % 2 == 1 {
                1int
            } else {
                0int
            });
            if next + 8 > b.len() {
                None
            } else {
                scan_chunks(b, next, fmt2)
            }
        }
    }
}

/// The located format and data chunk of `b`, if `b` is a well-formed WAV
/// file.
pub open spec fn spec_locate(b: Seq<u8>) -> Option<DataLoc> {
    if riff_ok(b) {
        scan_chunks(b, 12, None::<FmtInfo>)
    } else {
        None
    }
}

/// The located format and data chunk, for use once `spec_locate(b)` is known
/// to succeed.
pub open spec fn located(b: Seq<u8>) -> DataLoc
    recommends
        spec_locate(b) is Some,
{
    match spec_locate(b) {
        Some(l) => l,
        None => DataLoc {
            fmt: FmtInfo { audio_format: 0, channels: 0, sample_rate: 0, bits_per_sample: 0 },
            data_start: 0,
            data_len: 0,
        },
    }
}

/// Whether `b` is a well-formed 16-bit integer PCM WAV file.
pub open spec fn spec_wav_ok(b: Seq<u8>) -> bool {
    match spec_locate(b) {
        Some(loc) => loc.fmt.audio_format == 1 && loc.fmt.bits_per_sample == 16,
        None => false,
    }
}

fn read_u16(v: &Vec<u8>, pos: usize) -> (r: u16)
    requires
        pos + 2 <= v@.len(),
    ensures
        r == le16(v@, pos as int),
{
    // binding the length brings its machine bound into scope for the
    // index arithmetic below
    let _len = v.len();
    let b0 = v[pos] as u16;
    let b1 = v[pos + 1] as u16;
    b0 + 256 * b1
}

fn read_u32(v: &Vec<u8>, pos: usize) -> (r: u32)
    requires
        pos + 4 <= v@.len(),
    ensures
        r == le32(v@, pos as int),
{
    let _len = v.len();
    let b0 = v[pos] as u32;
    let b1 = v[pos + 1] as u32;
    let b2 = v[pos + 2] as u32;
    let b3 = v[pos + 3] as u32;
    b0 + 256 * b1 + 65536 * b2 + 16777216 * b3
}

fn read_i16(v: &Vec<u8>, pos: usize) -> (r: i16)
    requires
        pos + 2 <= v@.len(),
    ensures
        r as int == sample_at(v@, pos as int),
{
    let u = read_u16(v, pos);
    if u < 32768 {
        u as i16
    } else {
        ((u as i32) - 65536) as i16
    }
}

/// Finds the `fmt ` and `data` chunks of `v`, mirroring `spec_locate`.
fn locate_data(v: &Vec<u8>) -> (r: Option<(FmtInfo, usize, usize)>)
    requires
        v@.len() < 0x1000000000000000,
    ensures
        match r {
            Some(hit) => {
                &&& spec_locate(v@) == Some(
                    DataLoc { fmt: hit.0, data_start: hit.1 as int, data_len: hit.2 as int },
                )
                &&& hit.1 + hit.2 <= v@.len()
            },
            None => spec_locate(v@) is None,
        },
{
    let n = v.len();
    if n < 12 {
        return None;
    }
    if !(v[0] == 82 && v[1] == 73 && v[2] == 70 && v[3] == 70 && v[8] == 87 && v[9] == 65 && v[10]
        == 86 && v[11] == 69) {
        return None;
    }
    let mut pos: u64 = 12;
    let mut fmt: Option<FmtInfo> = None;
    loop
        invariant
            12 <= pos <= n,
            n == v@.len(),
            n < 0x1000000000000000,
            riff_ok(v@),
            scan_chunks(v@, 12, None::<FmtInfo>) == scan_chunks(v@, pos as int, fmt),
        decreases n - pos,
    {
        if pos + 8 > n as u64 {
            return None;
        }
        let p = pos as usize;
        let size32 = read_u32(v, p + 4);
        let size = size32 as u64;
        let body = pos + 8;
        if body + size > n as u64 {
            return None;
        }
        let id0 = v[p];
        let id1 = v[p + 1];
        let id2 = v[p + 2];
        let id3 = v[p + 3];
        if id0 == 100 && id1 == 97 && id2 == 116 && id3 == 97 {
            match fmt {
                Some(f) => {
                    return Some((f, body as usize, size as usize));
                },
                None => {
                    return None;
                },
            }
        }
        let is_fmt = id0 == 102 && id1 == 109 && id2 == 116 && id3 == 32;
        if is_fmt && size < 16 {
            return None;
        }
        let fmt2: Option<FmtInfo> = if is_fmt {
            let bp = body as usize;
            Some(
                FmtInfo {
                    audio_format: read_u16(v, bp),
                    channels: read_u16(v, bp + 2),
                    sample_rate: read_u32(v, bp + 4),
                    bits_per_sample: read_u16(v, bp + 14),
                },
            )
        } else {
            fmt
        };
        let pad: u64 = if size % 2 == 1 {
            1
        } else {
            0
        };
        let next = body + size + pad;
        if next + 8 > n as u64 {
            return None;
        }
        proof {
            assert(scan_chunks(v@, pos as int, fmt) == scan_chunks(v@, next as int, fmt2));
        }
        pos = next;
        fmt = fmt2;
    }
}

/// Reads `len / 2` consecutive 16-bit little-endian samples starting at
/// `start`.
fn read_samples(v: &Vec<u8>, start: usize, len: usize) -> (r: Vec<i16>)
    requires
        start + len <= v@.len(),
    ensures
        r@.len() == len as int / 2,
        forall|k: int|
            0 <= k < r@.len() ==> #[trigger] r@[k] as int == sample_at(
                v@,
                start as int + 2 * k,
            ),
{
    let total = v.len();
    let count = len / 2;
    let mut out: Vec<i16> = Vec::new();
    let mut k: usize = 0;
    while k < count
        invariant
            k <= count,
            count == len as int / 2,
            start + len <= v@.len(),
            total == v@.len(),
            out@.len() == k,
            forall|j: int|
                0 <= j < k ==> #[trigger] out@[j] as int == sample_at(v@, start as int + 2 * j),
        decreases count - k,
    {
        let s = read_i16(v, start + 2 * k);
        out.push(s);
        k = k + 1;
    }
    out
}

/// A parsed canonical-audio container: the validated format fields and the
/// raw interleaved 16-bit samples.
pub struct WavData {
    pub channels: u16,
    pub sample_rate: u32,
    pub samples: Vec<i16>,
}

/// Parses 16-bit integer PCM WAV bytes into their format fields and raw
/// samples. Anything else — a malformed or truncated container, or one whose
/// samples are not 16-bit integer PCM — is rejected as unsupported.
pub fn parse_wav(bytes: &Vec<u8>) -> (r: Result<WavData, TranscribeError>)
    requires
        bytes@.len() < 0x1000000000000000,
    ensures
        match r {
            Ok(w) => {
                &&& spec_wav_ok(bytes@)
                &&& w.channels == located(bytes@).fmt.channels
                &&& w.sample_rate == located(bytes@).fmt.sample_rate
                &&& w.samples@.len() == located(bytes@).data_len / 2
                &&& forall|k: int|
                    0 <= k < w.samples@.len() ==> #[trigger] w.samples@[k] as int == sample_at(
                        bytes@,
                        located(bytes@).data_start + 2 * k,
                    )
            },
            Err(e) => e == TranscribeError::UnsupportedAudioFormat && !spec_wav_ok(bytes@),
        },
{
    match locate_data(bytes) {
        None => Err(TranscribeError::UnsupportedAudioFormat),
        Some((f, start, len)) => {
            if f.audio_format == 1 && f.bits_per_sample == 16 {
                let samples = read_samples(bytes, start, len);
                Ok(WavData { channels: f.channels, sample_rate: f.sample_rate, samples })
            } else {
                Err(TranscribeError::UnsupportedAudioFormat)
            }
        },
    }
}

/// The engine-ready mono sample buffer. Each stored value `v` stands for the
/// normalized floating-point sample `v / 65536`, so every sample lies in
/// `[-1.0, 1.0]`: a mono source sample `s` is stored as `2 * s` (that is,
/// `s / 32768` scaled), and a stereo pair `(l, r)` as `l + r` (their average
/// `(l + r) / 2`, scaled by `1 / 32768`).
pub struct SampleBuffer {
    pub samples: Vec<i32>,
}

impl SampleBuffer {
    /// Every stored sample stands for a value in `[-1.0, 1.0]`.
    pub open spec fn wf(self) -> bool {
        forall|k: int|
            0 <= k < self.samples@.len() ==> -65536 <= #[trigger] self.samples@[k] as int <= 65534
    }

    pub fn len(&self) -> (n: usize)
        ensures
            n == self.samples@.len(),
    {
        self.samples.len()
    }
}

/// The mono scaling of raw samples: `s` becomes `2 * s`, standing for
/// `s / 32768`.
pub open spec fn spec_mono(raw: Seq<i16>) -> Seq<int> {
    Seq::new(raw.len(), |k: int| 2 * (raw[k] as int))
}

/// The stereo downmix of raw interleaved samples: pair `k` becomes
/// `raw[2k] + raw[2k+1]`, standing for the pair's average scaled to
/// `[-1.0, 1.0]`.
pub open spec fn spec_stereo(raw: Seq<i16>) -> Seq<int> {
    Seq::new((raw.len() / 2) as nat, |k: int| raw[2 * k] as int + raw[2 * k + 1] as int)
}

/// Validates a parsed container and converts its samples to the normalized
/// mono buffer: succeeds exactly when the channel count is 1 or 2 and the
/// sample rate is exactly 16000 Hz — each condition checked independently —
/// and fails with `UnsupportedAudioFormat` otherwise. A 1-channel stream is
/// passed through sample by sample; a 2-channel stream is downmixed by
/// averaging each interleaved pair. No partial output is produced on
/// failure.
pub fn decode(w: &WavData) -> (r: Result<SampleBuffer, TranscribeError>)
    ensures
        r is Ok <==> ((w.channels == 1 || w.channels == 2) && w.sample_rate == 16000),
        match r {
            Ok(buf) => {
                &&& buf.wf()
                &&& w.channels == 1 ==> buf.samples@.len() == w.samples@.len() && (forall|k: int|
                    0 <= k < buf.samples@.len() ==> #[trigger] buf.samples@[k] as int
                        == spec_mono(w.samples@)[k])
                &&& w.channels == 2 ==> buf.samples@.len() == w.samples@.len() / 2 && (forall|
                    k: int,
                |
                    0 <= k < buf.samples@.len() ==> #[trigger] buf.samples@[k] as int
                        == spec_stereo(w.samples@)[k])
            },
            Err(e) => e == TranscribeError::UnsupportedAudioFormat,
        },
{
    let channels_ok = w.channels == 1 || w.channels == 2;
    let rate_ok = w.sample_rate == 16000;
    if !channels_ok || !rate_ok {
        return Err(TranscribeError::UnsupportedAudioFormat);
    }
    if w.channels == 1 {
        let n = w.samples.len();
        let mut out: Vec<i32> = Vec::new();
        let mut k: usize = 0;
        while k < n
            invariant
                k <= n,
                n == w.samples@.len(),
                out@.len() == k,
                forall|j: int|
                    0 <= j < k ==> #[trigger] out@[j] as int == 2 * (w.samples@[j] as int),
            decreases n - k,
        {
            let s = w.samples[k];
            out.push(2 * (s as i32));
            k = k + 1;
        }
        let buf = SampleBuffer { samples: out };
        proof {
            assert(forall|j: int|
                0 <= j < buf.samples@.len() ==> #[trigger] buf.samples@[j] as int == spec_mono(
                    w.samples@,
                )[j]);
        }
        Ok(buf)
    } else {
        let total = w.samples.len();
        let n = total / 2;
        let mut out: Vec<i32> = Vec::new();
        let mut k: usize = 0;
        while k < n
            invariant
                k <= n,
                total == w.samples@.len(),
                n == w.samples@.len() as int / 2,
                out@.len() == k,
                forall|j: int|
                    0 <= j < k ==> #[trigger] out@[j] as int == w.samples@[2 * j] as int
                        + w.samples@[2 * j + 1] as int,
            decreases n - k,
        {
            let l = w.samples[2 * k];
            let r = w.samples[2 * k + 1];
            out.push((l as i32) + (r as i32));
            k = k + 1;
        }
        let buf = SampleBuffer { samples: out };
        proof {
            assert(forall|j: int|
                0 <= j < buf.samples@.len() ==> #[trigger] buf.samples@[j] as int == spec_stereo(
                    w.samples@,
                )[j]);
        }
        Ok(buf)
    }
}

/// The whole decoding stage over canonical-audio bytes: parse the WAV
/// container, validate its format, and produce the normalized mono buffer.
/// Succeeds exactly when the bytes are well-formed 16-bit integer PCM WAV
/// with 1 or 2 channels at exactly 16000 Hz.
pub fn decode_canonical(bytes: &Vec<u8>) -> (r: Result<SampleBuffer, TranscribeError>)
    requires
        bytes@.len() < 0x1000000000000000,
    ensures
        r is Ok <==> (spec_wav_ok(bytes@) && (located(bytes@).fmt.channels == 1 || located(
            bytes@,
        ).fmt.channels == 2) && located(bytes@).fmt.sample_rate == 16000),
        match r {
            Ok(buf) => {
                &&& buf.wf()
                &&& located(bytes@).fmt.channels == 1 ==> buf.samples@.len() == located(
                    bytes@,
                ).data_len / 2 && (forall|k: int|
                    0 <= k < buf.samples@.len() ==> #[trigger] buf.samples@[k] as int == 2
                        * sample_at(bytes@, located(bytes@).data_start + 2 * k))
                &&& located(bytes@).fmt.channels == 2 ==> buf.samples@.len() == located(
                    bytes@,
                ).data_len / 2 / 2 && (forall|k: int|
                    0 <= k < buf.samples@.len() ==> #[trigger] buf.samples@[k] as int == sample_at(
                        bytes@,
                        located(bytes@).data_start + 4 * k,
                    ) + sample_at(bytes@, located(bytes@).data_start + 4 * k + 2))
            },
            Err(e) => e == TranscribeError::UnsupportedAudioFormat,
        },
{
    match parse_wav(bytes) {
        Err(e) => Err(e),
        Ok(w) => {
            match decode(&w) {
                Err(e) => Err(e),
                Ok(buf) => {
                    proof {
                        if located(bytes@).fmt.channels == 2 {
                            assert(forall|k: int|
                                0 <= k < buf.samples@.len() ==> #[trigger] buf.samples@[k] as int
                                    == sample_at(bytes@, located(bytes@).data_start + 4 * k)
                                    + sample_at(bytes@, located(bytes@).data_start + 4 * k + 2));
                        }
                    }
                    Ok(buf)
                },
            }
        },
    }
}

} // verus!
