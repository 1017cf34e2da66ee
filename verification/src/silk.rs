//! The SILK voice encoder: its configuration, its errors and the framing
//! of the encoded stream.
use vstd::prelude::*;
use std::marker::PhantomData;
use vstd::string::StringExecFns;

verus! {

/// The errors that the SILK SDK reports, by their codes -1 to -12.
#[derive(Clone, Copy, Debug, PartialEq, Eq, Structural)]
pub enum SilkError {
    EncInputInvalidNoOfSamples,
    EncFsNotSupported,
    EncPacketSizeNotSupported,
    EncPayloadBufTooShort,
    EncInvalidLossRate,
    EncInvalidComplexitySetting,
    EncInvalidInbandFecSetting,
    EncInvalidDtxSetting,
    EncInternalError,
    DecInvalidSamplingFrequency,
    DecPayloadTooLarge,
    DecPayloadError,
}

impl SilkError {
    pub open spec fn spec_code(self) -> int {
        match self {
            SilkError::EncInputInvalidNoOfSamples => -1,
            SilkError::EncFsNotSupported => -2,
            SilkError::EncPacketSizeNotSupported => -3,
            SilkError::EncPayloadBufTooShort => -4,
            SilkError::EncInvalidLossRate => -5,
            SilkError::EncInvalidComplexitySetting => -6,
            SilkError::EncInvalidInbandFecSetting => -7,
            SilkError::EncInvalidDtxSetting => -8,
            SilkError::EncInternalError => -9,
            SilkError::DecInvalidSamplingFrequency => -10,
            SilkError::DecPayloadTooLarge => -11,
            SilkError::DecPayloadError => -12,
        }
    }

    /// The error's name, which is also how it displays.
    pub open spec fn spec_name(self) -> Seq<char> {
        match self {
            SilkError::EncInputInvalidNoOfSamples => "EncInputInvalidNoOfSamples"@,
            SilkError::EncFsNotSupported => "EncFsNotSupported"@,
            SilkError::EncPacketSizeNotSupported => "EncPacketSizeNotSupported"@,
            SilkError::EncPayloadBufTooShort => "EncPayloadBufTooShort"@,
            SilkError::EncInvalidLossRate => "EncInvalidLossRate"@,
            SilkError::EncInvalidComplexitySetting => "EncInvalidComplexitySetting"@,
            SilkError::EncInvalidInbandFecSetting => "EncInvalidInbandFecSetting"@,
            SilkError::EncInvalidDtxSetting => "EncInvalidDtxSetting"@,
            SilkError::EncInternalError => "EncInternalError"@,
            SilkError::DecInvalidSamplingFrequency => "DecInvalidSamplingFrequency"@,
            SilkError::DecPayloadTooLarge => "DecPayloadTooLarge"@,
            SilkError::DecPayloadError => "DecPayloadError"@,
        }
    }

    /// The error's text: its name.
    pub fn to_string(&self) -> (r: String)
        ensures
            r@ == self.spec_name(),
    {
        let name = match self {
            SilkError::EncInputInvalidNoOfSamples => "EncInputInvalidNoOfSamples",
            SilkError::EncFsNotSupported => "EncFsNotSupported",
            SilkError::EncPacketSizeNotSupported => "EncPacketSizeNotSupported",
            SilkError::EncPayloadBufTooShort => "EncPayloadBufTooShort",
            SilkError::EncInvalidLossRate => "EncInvalidLossRate",
            SilkError::EncInvalidComplexitySetting => "EncInvalidComplexitySetting",
            SilkError::EncInvalidInbandFecSetting => "EncInvalidInbandFecSetting",
            SilkError::EncInvalidDtxSetting => "EncInvalidDtxSetting",
            SilkError::EncInternalError => "EncInternalError",
            SilkError::DecInvalidSamplingFrequency => "DecInvalidSamplingFrequency",
            SilkError::DecPayloadTooLarge => "DecPayloadTooLarge",
            SilkError::DecPayloadError => "DecPayloadError",
        };
        String::from_str(name)
    }

    /// The SDK's code for the error.
    pub fn code(&self) -> (r: i32)
        ensures
            r == self.spec_code(),
    {
        match self {
            SilkError::EncInputInvalidNoOfSamples => -1,
            SilkError::EncFsNotSupported => -2,
            SilkError::EncPacketSizeNotSupported => -3,
            SilkError::EncPayloadBufTooShort => -4,
            SilkError::EncInvalidLossRate => -5,
            SilkError::EncInvalidComplexitySetting => -6,
            SilkError::EncInvalidInbandFecSetting => -7,
            SilkError::EncInvalidDtxSetting => -8,
            SilkError::EncInternalError => -9,
            SilkError::DecInvalidSamplingFrequency => -10,
            SilkError::DecPayloadTooLarge => -11,
            SilkError::DecPayloadError => -12,
        }
    }

    /// The error with the SDK code `code`; other codes are handed back.
    pub fn try_from_code(code: i32) -> (r: Result<SilkError, i32>)
        ensures
            r matches Ok(e) ==> e.spec_code() == code,
            r is Err <==> !(-12 <= code <= -1),
            r matches Err(c) ==> c == code,
    {
        match code {
            -1 => Ok(SilkError::EncInputInvalidNoOfSamples),
            -2 => Ok(SilkError::EncFsNotSupported),
            -3 => Ok(SilkError::EncPacketSizeNotSupported),
            -4 => Ok(SilkError::EncPayloadBufTooShort),
            -5 => Ok(SilkError::EncInvalidLossRate),
            -6 => Ok(SilkError::EncInvalidComplexitySetting),
            -7 => Ok(SilkError::EncInvalidInbandFecSetting),
            -8 => Ok(SilkError::EncInvalidDtxSetting),
            -9 => Ok(SilkError::EncInternalError),
            -10 => Ok(SilkError::DecInvalidSamplingFrequency),
            -11 => Ok(SilkError::DecPayloadTooLarge),
            -12 => Ok(SilkError::DecPayloadError),
            _ => Err(code),
        }
    }
}

/// A SILK encoder for samples of type `U` at a bit rate.
pub struct SilkEncoder<U> {
    bit_rate: u32,
    _phantom: PhantomData<U>,
}

impl<U> SilkEncoder<U> {
    pub closed spec fn spec_bit_rate(&self) -> u32 {
        self.bit_rate
    }

    pub fn new(bit_rate: u32) -> (r: Self)
        ensures
            r.spec_bit_rate() == bit_rate,
    {
        SilkEncoder { bit_rate, _phantom: PhantomData }
    }

    pub fn bit_rate(&self) -> (r: u32)
        ensures
            r == self.spec_bit_rate(),
    {
        self.bit_rate
    }
}

/// Why encoding failed: an SDK error this library knows, or another code.
#[derive(Debug)]
pub enum AudioCodecEncoderError {
    SilkEncoderKnownError(SilkError),
    SilkEncoderUnknownError(i32),
}

/// The error for the SDK's result code `code`.
pub open spec fn encoder_error(code: i32) -> AudioCodecEncoderError {
    if -12 <= code <= -1 {
        AudioCodecEncoderError::SilkEncoderKnownError(
            choose|e: SilkError| e.spec_code() == code,
        )
    } else {
        AudioCodecEncoderError::SilkEncoderUnknownError(code)
    }
}

/// The head of a SILK stream: the byte 2 and `#!SILK_V3`.
pub open spec fn silk_header() -> Seq<u8> {
    seq![0x02u8, 0x23u8, 0x21u8, 0x53u8, 0x49u8, 0x4cu8, 0x4bu8, 0x5fu8, 0x56u8, 0x33u8]
}

/// The SILK stream of the encoded frames `outs`: the head, then each frame's
/// length as two little-endian bytes and its bytes.
pub open spec fn silk_stream(outs: Seq<Seq<u8>>) -> Seq<u8>
    decreases outs.len(),
{
    if outs.len() == 0 {
        silk_header()
    } else {
        silk_stream(outs.drop_last()) + seq![
            (outs.last().len() % 256) as u8,
            (outs.last().len() / 256) as u8,
        ] + outs.last()
    }
}

/// The bytes of one frame at `sample_rate`: 40 bytes per millisecond's
/// thousandth of the rate (20 ms of 16-bit samples).
pub open spec fn frame_bytes(sample_rate: u32) -> int {
    (sample_rate / 1000) as int * 40
}

/// The number of whole frames in `len` bytes.
pub open spec fn frame_count(len: int, sample_rate: u32) -> int {
    len / frame_bytes(sample_rate)
}

/// The `i`-th whole frame of `stream`.
pub open spec fn silk_frame(stream: Seq<u8>, sample_rate: u32, i: int) -> Seq<u8> {
    stream.subrange(i * frame_bytes(sample_rate), (i + 1) * frame_bytes(sample_rate))
}

/// `encode_frame` turned `frame` into `out`.
pub open spec fn frame_encoded<E: Fn(Vec<u8>) -> Result<Vec<u8>, i32>>(
    encode_frame: E,
    frame: Seq<u8>,
    out: Seq<u8>,
) -> bool {
    exists|b: Vec<u8>, o: Vec<u8>|
        b@ == frame && o@ == out && #[trigger] call_ensures(
            encode_frame,
            (b,),
            Ok::<Vec<u8>, i32>(o),
        )
}

/// `encode_frame` failed on `frame` with the code `code`.
pub open spec fn frame_failed<E: Fn(Vec<u8>) -> Result<Vec<u8>, i32>>(
    encode_frame: E,
    frame: Seq<u8>,
    code: i32,
) -> bool {
    exists|b: Vec<u8>|
        b@ == frame && #[trigger] call_ensures(encode_frame, (b,), Err::<Vec<u8>, i32>(code))
}

/// `encode_frame` turned the first frames of `stream`, in order, into
/// `outs`.
pub open spec fn frames_encoded<E: Fn(Vec<u8>) -> Result<Vec<u8>, i32>>(
    encode_frame: E,
    stream: Seq<u8>,
    sample_rate: u32,
    outs: Seq<Seq<u8>>,
) -> bool {
    forall|i: int|
        0 <= i < outs.len() ==> frame_encoded(
            encode_frame,
            silk_frame(stream, sample_rate, i),
            #[trigger] outs[i],
        )
}

/// The error for the SDK's result code `code`.
fn error_of_code(code: i32) -> (r: AudioCodecEncoderError)
    ensures
        r == encoder_error(code),
{
    match SilkError::try_from_code(code) {
        Ok(e) => {
            proof {
                lemma_silk_codes_distinct();
            }
            AudioCodecEncoderError::SilkEncoderKnownError(e)
        },
        Err(c) => AudioCodecEncoderError::SilkEncoderUnknownError(c),
    }
}

/// No two SDK errors share a code.
proof fn lemma_silk_codes_distinct()
    ensures
        forall|a: SilkError, b: SilkError| #[trigger] a.spec_code() == #[trigger] b.spec_code() ==> a
            == b,
{
}

/// The frame of `stream` from `start` on, `len` bytes long.
fn copy_frame(stream: &[u8], start: usize, len: usize) -> (r: Vec<u8>)
    requires
        start + len <= stream@.len(),
    ensures
        r@ == stream@.subrange(start as int, start + len),
{
    let mut out: Vec<u8> = Vec::new();
    let mut i: usize = 0;
    let n: usize = stream.len();
    while i < len
        invariant
            i <= len,
            n == stream@.len(),
            start + len <= n,
            out@ == stream@.subrange(start as int, start + i),
        decreases len - i,
    {
        out.push(stream[start + i]);
        i = i + 1;
        assert(out@ =~= stream@.subrange(start as int, start + i));
    }
    out
}

/// Frames 16-bit samples at `sample_rate` into a SILK stream: the head,
/// then each whole frame of 20 ms, encoded by `encode_frame`, as its length
/// (two little-endian bytes) and its bytes; a last partial frame is left
/// out. The first frame that `encode_frame` fails on ends the encoding with
/// the error of its code.
pub fn encode_frames<E: Fn(Vec<u8>) -> Result<Vec<u8>, i32>>(
    stream: &[u8],
    sample_rate: u32,
    encode_frame: E,
) -> (r: Result<Vec<u8>, AudioCodecEncoderError>)
    requires
        sample_rate >= 1000,
        forall|b: Vec<u8>| call_requires(encode_frame, (b,)),
        forall|b: Vec<u8>, o: Result<Vec<u8>, i32>|
            call_ensures(encode_frame, (b,), o) ==> (o matches Ok(v) ==> v@.len() <= 1250),
    ensures
        r matches Ok(v) ==> exists|outs: Seq<Seq<u8>>|
            outs.len() == frame_count(stream@.len() as int, sample_rate) && #[trigger] frames_encoded(
                encode_frame,
                stream@,
                sample_rate,
                outs,
            ) && v@ == silk_stream(outs),
        r matches Err(e) ==> exists|outs: Seq<Seq<u8>>, code: i32|
            outs.len() < frame_count(stream@.len() as int, sample_rate) && #[trigger] frames_encoded(
                encode_frame,
                stream@,
                sample_rate,
                outs,
            ) && #[trigger] frame_failed(
                encode_frame,
                silk_frame(stream@, sample_rate, outs.len() as int),
                code,
            ) && e == encoder_error(code),
{
    let frame_size: usize = (sample_rate / 1000) as usize * 40;
    let count: usize = stream.len() / frame_size;
    let mut result: Vec<u8> = Vec::new();
    result.push(0x02);
    result.push(0x23);
    result.push(0x21);
    result.push(0x53);
    result.push(0x49);
    result.push(0x4c);
    result.push(0x4b);
    result.push(0x5f);
    result.push(0x56);
    result.push(0x33);
    let ghost mut outs: Seq<Seq<u8>> = Seq::empty();
    assert(result@ =~= silk_header());
    let mut k: usize = 0;
    while k < count
        invariant
            frame_size as int == frame_bytes(sample_rate),
            frame_size > 0,
            count as int == frame_count(stream@.len() as int, sample_rate),
            k <= count,
            outs.len() == k,
            frames_encoded(encode_frame, stream@, sample_rate, outs),
            result@ == silk_stream(outs),
            forall|b: Vec<u8>| call_requires(encode_frame, (b,)),
            forall|b: Vec<u8>, o: Result<Vec<u8>, i32>|
                call_ensures(encode_frame, (b,), o) ==> (o matches Ok(v) ==> v@.len() <= 1250),
        decreases count - k,
    {
        assert((k + 1) * frame_size <= stream@.len() && k * frame_size <= (k + 1) * frame_size
            && k * frame_size + frame_size == (k + 1) * frame_size)
            by (nonlinear_arith)
            requires
                k < count,
                count as int == stream@.len() as int / (frame_size as int),
                frame_size > 0,
        ;
        assert(stream@.len() == stream.len());
        let start: usize = k * frame_size;
        let frame = copy_frame(stream, start, frame_size);
        let ghost fr = frame;
        assert(fr@ == silk_frame(stream@, sample_rate, k as int)) by {
            assert(start as int == k * frame_bytes(sample_rate));
            assert(start + frame_size == (k + 1) * frame_bytes(sample_rate)) by (nonlinear_arith)
                requires
                    start as int == k * frame_bytes(sample_rate),
                    frame_size as int == frame_bytes(sample_rate),
            ;
        }
        let encoded = encode_frame(frame);
        match encoded {
            Err(code) => {
                assert(frame_failed(encode_frame, silk_frame(stream@, sample_rate, k as int), code));
                assert(frames_encoded(encode_frame, stream@, sample_rate, outs));
                let e = error_of_code(code);
                return Err(e);
            },
            Ok(out) => {
                let ghost o = out;
                assert(frame_encoded(encode_frame, silk_frame(stream@, sample_rate, k as int), o@));
                let n: usize = out.len();
                result.push((n % 256) as u8);
                result.push((n / 256) as u8);
                let mut out = out;
                result.append(&mut out);
                proof {
                    let next = outs.push(o@);
                    assert(next.drop_last() =~= outs);
                    assert(result@ =~= silk_stream(next));
                    outs = next;
                }
                k = k + 1;
            },
        }
    }
    assert(frames_encoded(encode_frame, stream@, sample_rate, outs));
    Ok(result)
}

/// A frame holds 20 ms of 16-bit samples at the sample rate: `rate / 1000`
/// samples a millisecond, two bytes each. The stream is cut into as many
/// whole frames as it holds, one after another from its start, and what
/// is left is shorter than a frame.
pub proof fn law_silk_frames_hold_20_ms(stream: Seq<u8>, sample_rate: u32)
    requires
        sample_rate >= 1000,
    ensures
        frame_bytes(sample_rate) == 2 * (20 * (sample_rate / 1000) as int),
        frame_count(stream.len() as int, sample_rate) * (40 * (sample_rate / 1000) as int)
            <= stream.len() < (frame_count(stream.len() as int, sample_rate) + 1) * (40 * (
        sample_rate / 1000) as int),
        forall|i: int|
            0 <= i < frame_count(stream.len() as int, sample_rate) ==> #[trigger] silk_frame(
                stream,
                sample_rate,
                i,
            ) == stream.subrange(
                i * (40 * (sample_rate / 1000) as int),
                (i + 1) * (40 * (sample_rate / 1000) as int),
            ),
{
    let f: int = 40 * (sample_rate / 1000) as int;
    let n: int = stream.len() as int;
    assert(f > 0);
    assert(frame_bytes(sample_rate) == f);
    assert(frame_count(n, sample_rate) == n / f);
    assert((n / f) * f <= n < (n / f + 1) * f) by (nonlinear_arith)
        requires
            f > 0,
            n >= 0,
    ;
}

/// A SILK stream starts with the byte 2 and the text `#!SILK_V3`, and each
/// frame adds its bytes and two bytes of length, little-endian: appending
/// a frame of `n` bytes makes the stream `n + 2` bytes longer, ending with
/// `n % 256`, `n / 256` and the frame.
pub proof fn law_silk_stream_layout(outs: Seq<Seq<u8>>, out: Seq<u8>)
    ensures
        silk_stream(outs).len() >= 10,
        silk_stream(outs).take(10) == seq![2u8] + "#!SILK_V3"@.map_values(|c: char| c as u8),
        silk_stream(outs.push(out)).len() == silk_stream(outs).len() + 2 + out.len(),
        silk_stream(outs.push(out)).subrange(
            silk_stream(outs).len() as int,
            silk_stream(outs).len() + 2int,
        ) == seq![(out.len() % 256) as u8, (out.len() / 256) as u8],
        silk_stream(outs.push(out)).skip(silk_stream(outs).len() + 2int) == out,
        silk_stream(outs.push(out)).take(silk_stream(outs).len() as int) == silk_stream(outs),
    decreases outs.len(),
{
    reveal_strlit("#!SILK_V3");
    let next = outs.push(out);
    assert(next.drop_last() =~= outs);
    let a = silk_stream(outs);
    let b = silk_stream(next);
    assert(b == a + seq![(out.len() % 256) as u8, (out.len() / 256) as u8] + out);
    assert(b.subrange(a.len() as int, a.len() + 2int) =~= seq![(out.len() % 256) as u8, (out.len() / 256) as u8]);
    assert(b.skip(a.len() + 2int) =~= out);
    assert(b.take(a.len() as int) =~= a);
    if outs.len() > 0 {
        law_silk_stream_layout(outs.drop_last(), outs.last());
        assert(outs.drop_last().push(outs.last()) =~= outs);
        assert(a.take(10) =~= silk_stream(outs.drop_last()).take(10));
    } else {
        assert(a =~= silk_header());
    }
    assert(seq![2u8] + "#!SILK_V3"@.map_values(|c: char| c as u8) =~= silk_header());
}

} // verus!



