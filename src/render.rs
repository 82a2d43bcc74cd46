//! The render command: the fill color, the temporary file's name, the status
//! line, and the steps of one invocation as a state machine that the host
//! drives by reporting how each step went.
use vstd::prelude::*;
use crate::decimal::{decimal, decimal_of, lemma_decimal_injective};
use crate::outside::{color_set_of, duration_debug_of, duration_text, replaced, svg_of};

verus! {

/// The scale at which the typeset image is rasterized.
pub const IMAGE_SCALE: u32 = 20;

/// The fill color applied when the request names none.
pub open spec fn default_color() -> Seq<char> {
    "#FFAAAA"@
}

/// The fill color of a request: the one it names, unchecked, or the default.
pub open spec fn fill_color_of(color: Option<String>) -> Seq<char> {
    match color {
        Some(c) => c@,
        None => default_color(),
    }
}

/// The name of the temporary image file made from the number `n`.
pub open spec fn file_name_of(n: nat) -> Seq<char> {
    "math"@ + decimal_of(n) + ".png"@
}

/// The status line that reports the elapsed time given as text.
pub open spec fn status_line_with(elapsed: Seq<char>) -> Seq<char> {
    "-# Rendered in "@ + elapsed
}

/// The status line for an elapsed time of `secs` seconds and `nanos`
/// nanoseconds: the same opening, then the duration as std's `Debug` writes it.
pub open spec fn status_line_of(secs: nat, nanos: nat) -> Seq<char> {
    status_line_with(duration_debug_of(secs, nanos))
}

/// The reply to an expression that the engine refused.
pub open spec fn invalid_text() -> Seq<char> {
    "Invalid expression"@
}

/// The fill color of a request.
pub fn fill_color(color: Option<String>) -> (r: String)
    ensures
        r@ == fill_color_of(color),
{
    match color {
        Some(c) => c,
        None => String::from_str("#FFAAAA"),
    }
}

/// Applies the request's fill color to the image, in place of every
/// `currentColor` of its SVG, unless its color was set before; returns the
/// fill color.
pub fn set_image_color(image: &mut mathjax::Render, color: Option<String>) -> (applied: String)
    ensures
        applied@ == fill_color_of(color),
        color_set_of(*final(image)),
        !color_set_of(*old(image)) ==> svg_of(*final(image)) == replaced(
            svg_of(*old(image)),
            "currentColor"@,
            fill_color_of(color),
        ),
        color_set_of(*old(image)) ==> *final(image) == *old(image),
{
    let c = fill_color(color);
    let _ = image.set_color(c.as_str());
    c
}

/// The name of the temporary image file made from the number `n`.
pub fn file_name(n: u32) -> (r: String)
    ensures
        r@ == file_name_of(n as nat),
{
    let mut s = String::from_str("math");
    let digits = decimal(n as u64);
    s.append(digits.as_str());
    s.append(".png");
    s
}

/// A fresh name for a temporary image file, made from a random number.
pub fn generate_file_path() -> (r: String)
    ensures
        exists|n: u32| r@ == file_name_of(n as nat),
{
    let n: u32 = rand::random::<u32>();
    file_name(n)
}

/// The status line that reports the elapsed time given as text.
pub fn status_line(elapsed: &str) -> (r: String)
    ensures
        r@ == status_line_with(elapsed@),
{
    let mut s = String::from_str("-# Rendered in ");
    s.append(elapsed);
    s
}

/// The status line for an elapsed time of `secs` seconds and `nanos`
/// nanoseconds.
pub fn generate_render_time_message(secs: u64, nanos: u32) -> (r: String)
    requires
        nanos < 1_000_000_000,
    ensures
        r@ == status_line_of(secs as nat, nanos as nat),
{
    let elapsed = duration_text(secs, nanos);
    status_line(elapsed.as_str())
}

/// Two different numbers name two different files.
pub proof fn lemma_file_names_distinct(a: nat, b: nat)
    requires
        a != b,
    ensures
        file_name_of(a) != file_name_of(b),
{
    if file_name_of(a) == file_name_of(b) {
        reveal_strlit("math");
        reveal_strlit(".png");
        let fa = file_name_of(a);
        let fb = file_name_of(b);
        assert(decimal_of(a) =~= fa.subrange(4, fa.len() - 4));
        assert(decimal_of(b) =~= fb.subrange(4, fb.len() - 4));
        lemma_decimal_injective(a, b);
    }
}

} // verus!
