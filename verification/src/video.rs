//! What is known of the source video, and how it is read from what the probe
//! printed: a JSON document with the streams of the file, of which the first
//! gives width, height and frame rate.

use vstd::prelude::*;
use vstd::string::StringSliceAdditionalSpecFns;
use vstd::utf8::encode_utf8;

verus! {

/// Frames per second as an exact fraction.
#[derive(Clone, Copy, Debug, PartialEq, Eq, Structural)]
pub struct FrameRate {
    pub num: u32,
    pub den: u32,
}

impl FrameRate {
    /// A rate needs a denominator.
    pub open spec fn well_formed(self) -> bool {
        self.den > 0
    }
}

/// Geometry and frame rate of a video.
#[derive(Clone, Copy, Debug, PartialEq, Eq, Structural)]
pub struct VideoMetadata {
    pub width: u32,
    pub height: u32,
    pub fps: FrameRate,
}

/// Why a text is no frame rate.
#[derive(Clone, Copy, Debug, PartialEq, Eq, Structural)]
pub enum RateError {
    /// Neither a number nor two numbers with a slash between them.
    Malformed,
    /// A number that is too large to hold.
    OutOfRange,
    /// A rate with nothing to divide by.
    ZeroDenominator,
}

/// Why the probe's output gives no metadata.
#[derive(Clone, Copy, Debug, PartialEq, Eq, Structural)]
pub enum ProbeError {
    /// The output is no JSON document.
    Malformed,
    /// The first stream has no width that is a whole number.
    WidthMissing,
    /// The first stream has no height that is a whole number.
    HeightMissing,
    /// The first stream has no frame rate that is a text.
    RateMissing,
    /// The frame rate is there and cannot be read.
    Rate(RateError),
}

/// The byte of a decimal digit.
pub open spec fn is_digit(byte: u8) -> bool {
    0x30 <= byte <= 0x39
}

/// The byte of a slash.
pub open spec fn slash() -> u8 {
    0x2f
}

/// One digit or more, and nothing else.
pub open spec fn all_digits(text: Seq<u8>) -> bool {
    text.len() > 0 && forall|i: int| 0 <= i < text.len() ==> is_digit(#[trigger] text[i])
}

/// The number that decimal digits write.
pub open spec fn decimal_value(digits: Seq<u8>) -> nat
    decreases digits.len(),
{
    if digits.len() == 0 {
        0
    } else {
        10 * decimal_value(digits.drop_last()) + (digits.last() - 0x30) as nat
    }
}

/// The number that a text writes, if it is one that can be held.
pub open spec fn number_of(text: Seq<u8>) -> Result<u32, RateError> {
    if !all_digits(text) {
        Err(RateError::Malformed)
    } else if decimal_value(text) > u32::MAX {
        Err(RateError::OutOfRange)
    } else {
        Ok(decimal_value(text) as u32)
    }
}

/// The place of the first slash from `start` on, or the length of the text.
pub open spec fn slash_from(text: Seq<u8>, start: int) -> int
    decreases text.len() - start,
{
    if start < 0 || start >= text.len() {
        text.len() as int
    } else if text[start] == slash() {
        start
    } else {
        slash_from(text, start + 1)
    }
}

/// The frame rate that a text writes: a whole number of frames per second,
/// or a number of frames, a slash and the number of seconds they take, which
/// is not zero. Of the faults that a text can have, a wrong form is reported
/// before a number too large, and that before a zero.
pub open spec fn rate_of(text: Seq<u8>) -> Result<FrameRate, RateError> {
    let cut = slash_from(text, 0);
    if cut >= text.len() {
        match number_of(text) {
            Ok(num) => Ok(FrameRate { num, den: 1 }),
            Err(e) => Err(e),
        }
    } else {
        let frames = number_of(text.subrange(0, cut));
        let seconds = number_of(text.subrange(cut + 1, text.len() as int));
        if frames == Err::<u32, RateError>(RateError::Malformed) || seconds == Err::<u32, RateError>(
            RateError::Malformed,
        ) {
            Err(RateError::Malformed)
        } else if frames is Err || seconds is Err {
            Err(RateError::OutOfRange)
        } else if seconds->Ok_0 == 0 {
            Err(RateError::ZeroDenominator)
        } else {
            Ok(FrameRate { num: frames->Ok_0, den: seconds->Ok_0 })
        }
    }
}

fn read_number(text: &[u8], from: usize, to: usize) -> (r: Result<u32, RateError>)
    requires
        from <= to <= text@.len(),
    ensures
        r == number_of(text@.subrange(from as int, to as int)),
{
    let ghost part = text@.subrange(from as int, to as int);
    if from == to {
        return Err(RateError::Malformed);
    }
    let mut value: u64 = 0;
    let mut over: bool = false;
    let mut i: usize = from;
    while i < to
        invariant
            from <= i <= to <= text@.len(),
            part == text@.subrange(from as int, to as int),
            forall|k: int| 0 <= k < i - from ==> is_digit(#[trigger] part[k]),
            !over ==> value == decimal_value(part.take(i - from)) && value <= u32::MAX,
            over ==> decimal_value(part.take(i - from)) > u32::MAX,
        decreases to - i,
    {
        let byte: u8 = text[i];
        if byte < 0x30 || byte > 0x39 {
            assert(!is_digit(part[i - from]));
            return Err(RateError::Malformed);
        }
        assert(part.take(i - from + 1).drop_last() =~= part.take(i - from));
        assert(part.take(i - from + 1).last() == byte);
        if !over {
            let next: u64 = 10 * value + (byte - 0x30) as u64;
            if next > u32::MAX as u64 {
                over = true;
            } else {
                value = next;
            }
        }
        i = i + 1;
    }
    assert(part.take(to - from) =~= part);
    if over {
        Err(RateError::OutOfRange)
    } else {
        Ok(value as u32)
    }
}

/// Reads a frame rate as the probe writes it.
pub fn parse_fps(text: &str) -> (r: Result<FrameRate, RateError>)
    ensures
        r == rate_of(text.spec_bytes()),
        r matches Ok(rate) ==> rate.well_formed(),
{
    let bytes: &[u8] = text.as_bytes();
    let len: usize = bytes.len();
    let mut cut: usize = 0;
    while cut < len && bytes[cut] != 0x2f
        invariant
            cut <= len == bytes@.len(),
            slash_from(bytes@, 0) == slash_from(bytes@, cut as int),
        decreases len - cut,
    {
        cut = cut + 1;
    }
    if cut >= len {
        assert(bytes@.subrange(0, len as int) =~= bytes@);
        return match read_number(bytes, 0, len) {
            Ok(num) => Ok(FrameRate { num, den: 1 }),
            Err(e) => Err(e),
        };
    }
    let frames: Result<u32, RateError> = read_number(bytes, 0, cut);
    let seconds: Result<u32, RateError> = read_number(bytes, cut + 1, len);
    match (frames, seconds) {
        (Err(RateError::Malformed), _) => Err(RateError::Malformed),
        (_, Err(RateError::Malformed)) => Err(RateError::Malformed),
        (Err(_), _) => Err(RateError::OutOfRange),
        (_, Err(_)) => Err(RateError::OutOfRange),
        (Ok(num), Ok(den)) => {
            if den == 0 {
                Err(RateError::ZeroDenominator)
            } else {
                Ok(FrameRate { num, den })
            }
        },
    }
}

/// Whether `serde_json` reads the bytes as one JSON document.
pub uninterp spec fn json_parses(document: Seq<u8>) -> bool;

/// The whole number that `serde_json` finds in a document under `key` of the
/// entry at `position` of the array under `list`, if the document can be read
/// and holds one there that is not negative and not above `u64::MAX`.
pub uninterp spec fn json_u64_at(document: Seq<u8>, list: Seq<char>, position: usize, key: Seq<char>) -> Option<u64>;

/// The text that `serde_json` finds at such a place, if there is one.
pub uninterp spec fn json_text_at(document: Seq<u8>, list: Seq<char>, position: usize, key: Seq<char>) -> Option<
    Seq<char>,
>;

/// `serde_json::from_slice` to a `Value`: whether the bytes are a JSON document.
#[verifier::external_body]
fn json_check(document: &[u8]) -> (r: bool)
    ensures
        r == json_parses(document@),
{
    serde_json::from_slice::<serde_json::Value>(document).is_ok()
}

/// `serde_json::from_slice`, `Value::get` by key, by position and by key
/// again, then `Value::as_u64`. A document that cannot be read holds nothing.
#[verifier::external_body]
fn json_u64_in(document: &[u8], list: &str, position: usize, key: &str) -> (r: Option<u64>)
    ensures
        r == json_u64_at(document@, list@, position, key@),
{
    let value: serde_json::Value = serde_json::from_slice(document).ok()?;
    value.get(list)?.get(position)?.get(key)?.as_u64()
}

/// `serde_json::from_slice`, `Value::get` by key, by position and by key
/// again, then `Value::as_str`. A document that cannot be read holds nothing.
#[verifier::external_body]
fn json_text_in(document: &[u8], list: &str, position: usize, key: &str) -> (r: Option<String>)
    ensures
        r matches Some(text) ==> json_text_at(document@, list@, position, key@) == Some(text@),
        r is None ==> json_text_at(document@, list@, position, key@) is None,
{
    let value: serde_json::Value = serde_json::from_slice(document).ok()?;
    Some(value.get(list)?.get(position)?.get(key)?.as_str()?.to_string())
}

/// What the probe is called with for a video: quiet but for errors, the first
/// video stream only, the three entries that `probe_result` reads, as JSON.
pub open spec fn probe_arguments_of(video: Seq<char>) -> Seq<Seq<char>> {
    seq![
        "-v"@,
        "error"@,
        "-select_streams"@,
        "v:0"@,
        "-show_entries"@,
        "stream=width,height,avg_frame_rate"@,
        "-of"@,
        "json"@,
        video,
    ]
}

/// The arguments with which the probe is called for a video.
pub fn probe_arguments(video: &str) -> (r: Vec<String>)
    ensures
        texts(r@) == probe_arguments_of(video@),
{
    let mut arguments: Vec<String> = Vec::new();
    arguments.push("-v".to_owned());
    arguments.push("error".to_owned());
    arguments.push("-select_streams".to_owned());
    arguments.push("v:0".to_owned());
    arguments.push("-show_entries".to_owned());
    arguments.push("stream=width,height,avg_frame_rate".to_owned());
    arguments.push("-of".to_owned());
    arguments.push("json".to_owned());
    arguments.push(video.to_owned());
    arguments
}

/// The texts of a list, each as the contracts read it.
pub open spec fn texts(list: Seq<String>) -> Seq<Seq<char>> {
    Seq::new(list.len(), |i: int| list[i]@)
}

/// A number of any size as a `u32` keeps its low 32 bits.
pub open spec fn low_bits(value: u64) -> u32 {
    (value % 0x1_0000_0000) as u32
}

/// What the three fields of a stream give: each must be there, in the order
/// width, height, rate, and the rate must be readable. Width and height are
/// kept as far as 32 bits hold them.
pub open spec fn metadata_of(width: Option<u64>, height: Option<u64>, rate: Option<Seq<u8>>) -> Result<
    VideoMetadata,
    ProbeError,
> {
    if width is None {
        Err(ProbeError::WidthMissing)
    } else if height is None {
        Err(ProbeError::HeightMissing)
    } else if rate is None {
        Err(ProbeError::RateMissing)
    } else {
        match rate_of(rate->0) {
            Err(e) => Err(ProbeError::Rate(e)),
            Ok(fps) => Ok(VideoMetadata { width: low_bits(width->0), height: low_bits(height->0), fps }),
        }
    }
}

/// The bytes of a text that may be missing.
pub open spec fn text_bytes(text: Option<Seq<char>>) -> Option<Seq<u8>> {
    match text {
        Some(chars) => Some(encode_utf8(chars)),
        None => None,
    }
}

/// What a probe's output gives: metadata of the first entry of `streams`, by
/// its fields `width`, `height` and `avg_frame_rate`.
pub open spec fn probe_result(document: Seq<u8>) -> Result<VideoMetadata, ProbeError> {
    if !json_parses(document) {
        Err(ProbeError::Malformed)
    } else {
        metadata_of(
            json_u64_at(document, "streams"@, 0, "width"@),
            json_u64_at(document, "streams"@, 0, "height"@),
            text_bytes(json_text_at(document, "streams"@, 0, "avg_frame_rate"@)),
        )
    }
}

fn keep_low_bits(value: u64) -> (r: u32)
    ensures
        r == low_bits(value),
{
    let low: u64 = value & 0xffff_ffff;
    assert(low == value % 0x1_0000_0000) by (bit_vector)
        requires
            low == value & 0xffff_ffff,
    ;
    low as u32
}

/// Makes metadata of the three fields of a stream.
pub fn metadata_from_fields(width: Option<u64>, height: Option<u64>, rate: Option<&str>) -> (r: Result<
    VideoMetadata,
    ProbeError,
>)
    ensures
        r == metadata_of(
            width,
            height,
            match rate {
                Some(text) => Some(text.spec_bytes()),
                None => None,
            },
        ),
        r matches Ok(metadata) ==> metadata.fps.well_formed(),
{
    let across: u64 = match width {
        Some(value) => value,
        None => {
            return Err(ProbeError::WidthMissing);
        },
    };
    let down: u64 = match height {
        Some(value) => value,
        None => {
            return Err(ProbeError::HeightMissing);
        },
    };
    let text: &str = match rate {
        Some(text) => text,
        None => {
            return Err(ProbeError::RateMissing);
        },
    };
    match parse_fps(text) {
        Err(e) => Err(ProbeError::Rate(e)),
        Ok(fps) => Ok(VideoMetadata { width: keep_low_bits(across), height: keep_low_bits(down), fps }),
    }
}

/// Reads the metadata of a video from what the probe printed for it.
pub fn parse_probe_output(document: &[u8]) -> (r: Result<VideoMetadata, ProbeError>)
    ensures
        r == probe_result(document@),
        r matches Ok(metadata) ==> metadata.fps.well_formed(),
{
    if !json_check(document) {
        return Err(ProbeError::Malformed);
    }
    let width: Option<u64> = json_u64_in(document, "streams", 0, "width");
    let height: Option<u64> = json_u64_in(document, "streams", 0, "height");
    let rate: Option<String> = json_text_in(document, "streams", 0, "avg_frame_rate");
    match rate {
        Some(text) => metadata_from_fields(width, height, Some(text.as_str())),
        None => metadata_from_fields(width, height, None),
    }
}

} // verus!
