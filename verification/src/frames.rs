//! The frames of a video on disk: how their files are named, which files of
//! a directory count as frames, and what the extractor is asked for.

use vstd::prelude::*;
use vstd::string::{StringExecFns, StringSliceAdditionalSpecFns};
use vstd::utf8::encode_utf8;
use crate::video::{texts, FrameRate};

verus! {

/// What the extractor is asked for: a rate, and width and height of the frames.
#[derive(Clone, Copy, Debug, PartialEq, Eq, Structural)]
pub struct ExtractionRequest {
    pub fps: FrameRate,
    pub width: u32,
    pub height: u32,
}

/// The character of a digit.
pub open spec fn digit_char(digit: int) -> char {
    if digit == 0 {
        '0'
    } else if digit == 1 {
        '1'
    } else if digit == 2 {
        '2'
    } else if digit == 3 {
        '3'
    } else if digit == 4 {
        '4'
    } else if digit == 5 {
        '5'
    } else if digit == 6 {
        '6'
    } else if digit == 7 {
        '7'
    } else if digit == 8 {
        '8'
    } else {
        '9'
    }
}

/// A number written in decimal digits, without leading zeros.
pub open spec fn decimal_text(n: nat) -> Seq<char>
    decreases n,
{
    if n < 10 {
        seq![digit_char(n as int)]
    } else {
        decimal_text(n / 10).push(digit_char((n % 10) as int))
    }
}

/// A number written in at least four digits, with zeros in front where it
/// has fewer.
pub open spec fn padded_text(n: nat) -> Seq<char> {
    if n < 10 {
        seq!['0', '0', '0'] + decimal_text(n)
    } else if n < 100 {
        seq!['0', '0'] + decimal_text(n)
    } else if n < 1000 {
        seq!['0'] + decimal_text(n)
    } else {
        decimal_text(n)
    }
}

/// The name of the file of a frame: `frame_`, its number in four digits, `.png`.
pub open spec fn frame_name(index: u32) -> Seq<char> {
    "frame_"@ + padded_text(index as nat) + ".png"@
}

/// A rate as the extractor reads it: a whole number where it is one, else
/// frames, a slash and seconds.
pub open spec fn rate_text(rate: FrameRate) -> Seq<char> {
    if rate.den == 1 {
        decimal_text(rate.num as nat)
    } else {
        decimal_text(rate.num as nat) + "/"@ + decimal_text(rate.den as nat)
    }
}

/// The filter that the extractor is given: the rate, then the size.
pub open spec fn filter_text(request: ExtractionRequest) -> Seq<char> {
    "fps="@ + rate_text(request.fps) + ",scale="@ + decimal_text(request.width as nat) + ":"@ + decimal_text(
        request.height as nat,
    )
}

/// The pattern by which the extractor numbers the files of the frames: the
/// names that `frame_name` gives, from 1 on.
pub open spec fn frame_pattern() -> Seq<char> {
    "/frame_%04d.png"@
}

/// What the extractor is called with: the video, the filter of the request,
/// frames at their own times and of high quality, and the pattern of the
/// files beneath the directory of the frames.
pub open spec fn extractor_arguments_of(video: Seq<char>, frames_dir: Seq<char>, request: ExtractionRequest) -> Seq<
    Seq<char>,
> {
    seq![
        "-i"@,
        video,
        "-vf"@,
        filter_text(request),
        "-vsync"@,
        "vfr"@,
        "-q:v"@,
        "2"@,
        frames_dir + frame_pattern(),
    ]
}

/// Whether a file name is that of a frame: it ends in `.png`, and something
/// stands before the dot.
pub open spec fn is_frame_name(name: Seq<u8>) -> bool {
    name.len() >= 5 && name.subrange(name.len() - 4, name.len() as int) == seq![0x2eu8, 0x70u8, 0x6eu8, 0x67u8]
}

/// How many of the first `n` names are names of frames.
pub open spec fn frames_among(names: Seq<String>, n: int) -> nat
    decreases n,
{
    if n <= 0 {
        0
    } else {
        frames_among(names, n - 1) + if is_frame_name(encode_utf8(names[n - 1]@)) {
            1nat
        } else {
            0nat
        }
    }
}

fn digit_text(digit: u32) -> (r: &'static str)
    requires
        digit < 10,
    ensures
        r@ == seq![digit_char(digit as int)],
{
    proof {
        reveal_strlit("0");
        reveal_strlit("1");
        reveal_strlit("2");
        reveal_strlit("3");
        reveal_strlit("4");
        reveal_strlit("5");
        reveal_strlit("6");
        reveal_strlit("7");
        reveal_strlit("8");
        reveal_strlit("9");
    }
    if digit == 0 {
        "0"
    } else if digit == 1 {
        "1"
    } else if digit == 2 {
        "2"
    } else if digit == 3 {
        "3"
    } else if digit == 4 {
        "4"
    } else if digit == 5 {
        "5"
    } else if digit == 6 {
        "6"
    } else if digit == 7 {
        "7"
    } else if digit == 8 {
        "8"
    } else {
        "9"
    }
}

fn append_decimal(text: &mut String, n: u32)
    ensures
        final(text)@ == old(text)@ + decimal_text(n as nat),
    decreases n,
{
    if n >= 10 {
        append_decimal(text, n / 10);
    }
    text.append(digit_text(n % 10));
}

/// The name of the file of the frame with that number.
pub fn frame_file_name(index: u32) -> (r: String)
    ensures
        r@ == frame_name(index),
{
    proof {
        reveal_strlit("000");
        reveal_strlit("00");
        reveal_strlit("0");
    }
    let mut name: String = "frame_".to_owned();
    if index < 10 {
        name.append("000");
    } else if index < 100 {
        name.append("00");
    } else if index < 1000 {
        name.append("0");
    }
    append_decimal(&mut name, index);
    name.append(".png");
    name
}

impl ExtractionRequest {
    /// The filter that the extractor is given for the request.
    pub fn filter(&self) -> (r: String)
        ensures
            r@ == filter_text(*self),
    {
        let mut text: String = "fps=".to_owned();
        append_decimal(&mut text, self.fps.num);
        if self.fps.den != 1 {
            text.append("/");
            append_decimal(&mut text, self.fps.den);
        }
        text.append(",scale=");
        append_decimal(&mut text, self.width);
        text.append(":");
        append_decimal(&mut text, self.height);
        text
    }

    /// The arguments with which the extractor is called for the request.
    pub fn extractor_arguments(&self, video: &str, frames_dir: &str) -> (r: Vec<String>)
        ensures
            texts(r@) == extractor_arguments_of(video@, frames_dir@, *self),
    {
        let mut pattern: String = frames_dir.to_owned();
        pattern.append("/frame_%04d.png");
        let mut arguments: Vec<String> = Vec::new();
        arguments.push("-i".to_owned());
        arguments.push(video.to_owned());
        arguments.push("-vf".to_owned());
        arguments.push(self.filter());
        arguments.push("-vsync".to_owned());
        arguments.push("vfr".to_owned());
        arguments.push("-q:v".to_owned());
        arguments.push("2".to_owned());
        arguments.push(pattern);
        arguments
    }
}

/// Whether a file of that name is a frame.
pub fn is_frame_file(name: &str) -> (r: bool)
    ensures
        r == is_frame_name(name.spec_bytes()),
{
    let bytes: &[u8] = name.as_bytes();
    let len: usize = bytes.len();
    if len < 5 {
        return false;
    }
    let r: bool = bytes[len - 4] == 0x2e && bytes[len - 3] == 0x70 && bytes[len - 2] == 0x6e && bytes[len - 1] == 0x67;
    let ghost tail = bytes@.subrange(len - 4, len as int);
    assert(tail[0] == bytes@[len - 4] && tail[1] == bytes@[len - 3] && tail[2] == bytes@[len - 2] && tail[3]
        == bytes@[len - 1]);
    assert(r == (tail =~= seq![0x2eu8, 0x70u8, 0x6eu8, 0x67u8]));
    r
}

/// Counts the frames among the files of a directory, given by name. The
/// count is kept as far as 32 bits hold it.
pub fn count_frame_files(names: &Vec<String>) -> (r: u32)
    ensures
        r == frames_among(names@, names@.len() as int) % 0x1_0000_0000,
{
    let mut count: usize = 0;
    let mut i: usize = 0;
    while i < names.len()
        invariant
            i <= names@.len(),
            count == frames_among(names@, i as int),
            count <= i,
        decreases names@.len() - i,
    {
        if is_frame_file(names[i].as_str()) {
            count = count + 1;
        }
        i = i + 1;
    }
    let wide: u64 = count as u64;
    let low: u64 = wide & 0xffff_ffff;
    assert(low == wide % 0x1_0000_0000) by (bit_vector)
        requires
            low == wide & 0xffff_ffff,
    ;
    low as u32
}

} // verus!
