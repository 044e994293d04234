use vstd::prelude::*;
use vstd::string::StringSliceAdditionalSpecFns;

use crate::color::{rgb565_of, Color};
use crate::geometry::Point;

verus! {

/// How a failure is reported, chosen once when the program starts.
#[derive(Clone, Copy, Debug, PartialEq, Eq, Structural)]
pub enum FailureMode {
    /// Draw where the failure happened and its message, then halt.
    Diagnostic,
    /// Halt without drawing anything.
    Silent,
}

/// One string to draw: its bytes, ending in a zero byte, where, in which
/// font, and in which colours.
#[derive(Clone, Debug, PartialEq, Eq)]
pub struct TextDraw {
    pub text: Vec<u8>,
    pub point: Point,
    pub large_format: bool,
    pub text_color: Color,
    pub background_color: Color,
}

/// The decimal digits of `n`, most significant first, as ASCII bytes.
pub open spec fn decimal(n: nat) -> Seq<u8>
    decreases n,
{
    if n < 10 {
        seq![(48 + n) as u8]
    } else {
        decimal(n / 10).push((48 + n % 10) as u8)
    }
}

/// The bytes of `s`, or those of `fallback` where `s` is missing.
pub open spec fn shown(s: Option<&str>, fallback: &str) -> Seq<u8> {
    match s {
        Some(t) => t.spec_bytes(),
        None => fallback.spec_bytes(),
    }
}

/// The line that reports the source line of the failure.
pub open spec fn line_text(line: Option<u32>) -> Seq<u8> {
    "\n\nline ".spec_bytes() + match line {
        Some(n) => decimal(n as nat),
        None => "?".spec_bytes(),
    } + ".".spec_bytes()
}

/// Whether `d` draws `text` followed by a zero byte at `(x, y)`.
pub open spec fn draws(d: TextDraw, text: Seq<u8>, x: u16, y: u16) -> bool {
    d.text@ == text.push(0) && d.point == (Point { x, y })
}

fn append_bytes(out: &mut Vec<u8>, bytes: &[u8])
    ensures
        final(out)@ == old(out)@ + bytes@,
{
    let mut i: usize = 0;
    while i < bytes.len()
        invariant
            i <= bytes@.len(),
            out@ == old(out)@ + bytes@.subrange(0, i as int),
        decreases bytes@.len() - i,
    {
        out.push(bytes[i]);
        i += 1;
        assert(out@ =~= old(out)@ + bytes@.subrange(0, i as int));
    }
    assert(bytes@.subrange(0, i as int) =~= bytes@);
}

fn append_decimal(out: &mut Vec<u8>, n: u32)
    ensures
        final(out)@ == old(out)@ + decimal(n as nat),
    decreases n,
{
    if n >= 10 {
        append_decimal(out, n / 10);
    }
    out.push((48 + n % 10) as u8);
    assert(out@ =~= old(out)@ + decimal(n as nat));
}

fn text_or(s: Option<&str>, fallback: &str) -> (r: Vec<u8>)
    ensures
        r@ == shown(s, fallback).push(0),
{
    let mut out: Vec<u8> = Vec::new();
    match s {
        Some(t) => append_bytes(&mut out, t.as_bytes()),
        None => append_bytes(&mut out, fallback.as_bytes()),
    }
    out.push(0);
    assert(out@ =~= shown(s, fallback).push(0));
    out
}

/// What to draw when the program fails at line `line` of `file` with
/// `message`. Silently: nothing. With diagnostics: the file at `(0, 40)` and
/// the message at `(0, 0)`, both large, red on white, then a small line
/// `"\n\nline N."` at `(0, 30)`, red on white; a missing file, message or line
/// is shown as `unknown location`, `no message` or `?`.
pub fn failure_report(
    mode: FailureMode,
    file: Option<&str>,
    line: Option<u32>,
    message: Option<&str>,
) -> (r: Vec<TextDraw>)
    ensures
        mode == FailureMode::Silent ==> r@.len() == 0,
        mode == FailureMode::Diagnostic ==> {
            &&& r@.len() == 3
            &&& draws(r@[0], shown(file, "unknown location"), 0, 40)
            &&& draws(r@[1], shown(message, "no message"), 0, 0)
            &&& draws(r@[2], line_text(line), 0, 30)
            &&& r@[0].large_format && r@[1].large_format && !r@[2].large_format
            &&& r@[0].text_color.rgb565 == rgb565_of(255, 0, 0)
            &&& r@[1].text_color.rgb565 == rgb565_of(255, 0, 0)
            &&& r@[2].text_color.rgb565 == rgb565_of(255, 0, 0)
            &&& r@[0].background_color.rgb565 == rgb565_of(255, 255, 255)
            &&& r@[1].background_color.rgb565 == rgb565_of(255, 255, 255)
            &&& r@[2].background_color.rgb565 == rgb565_of(255, 255, 255)
        },
{
    let mut draws_out: Vec<TextDraw> = Vec::new();
    if mode == FailureMode::Silent {
        return draws_out;
    }
    draws_out.push(
        TextDraw {
            text: text_or(file, "unknown location"),
            point: Point { x: 0, y: 40 },
            large_format: true,
            text_color: Color::from_rgb888(255, 0, 0),
            background_color: Color::from_rgb888(255, 255, 255),
        },
    );
    draws_out.push(
        TextDraw {
            text: text_or(message, "no message"),
            point: Point { x: 0, y: 0 },
            large_format: true,
            text_color: Color::from_rgb888(255, 0, 0),
            background_color: Color::from_rgb888(255, 255, 255),
        },
    );
    let mut text: Vec<u8> = Vec::new();
    append_bytes(&mut text, "\n\nline ".as_bytes());
    match line {
        Some(n) => append_decimal(&mut text, n),
        None => append_bytes(&mut text, "?".as_bytes()),
    }
    append_bytes(&mut text, ".".as_bytes());
    text.push(0);
    assert(text@ =~= line_text(line).push(0));
    draws_out.push(
        TextDraw {
            text,
            point: Point { x: 0, y: 30 },
            large_format: false,
            text_color: Color::from_rgb888(255, 0, 0),
            background_color: Color::from_rgb888(255, 255, 255),
        },
    );
    draws_out
}

} // verus!
