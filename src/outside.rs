//! The outside items that the library calls, with the contracts it relies on.
use vstd::prelude::*;

verus! {

/// Relies on rand::random: a value drawn from the thread-local generator.
/// Nothing is known of the value drawn.
pub assume_specification<T>[ rand::random::<T> ]() -> (r: T)
    where
        rand::distributions::Standard: rand::distributions::Distribution<T>,
;

/// The typesetting engine of the mathjax crate.
#[verifier::external_type_specification]
#[verifier::external_body]
pub struct ExMathJax(mathjax::MathJax);

/// A typeset expression of the mathjax crate, an SVG image.
#[verifier::external_type_specification]
#[verifier::external_body]
pub struct ExRender(mathjax::Render);

/// The mathjax crate's error for an expression it could not typeset.
#[verifier::external_type_specification]
#[verifier::external_body]
pub struct ExRenderError(mathjax::RenderError);

/// The SVG source that a typeset image holds.
pub uninterp spec fn svg_of(image: mathjax::Render) -> Seq<char>;

/// Whether the color of a typeset image has been set.
pub uninterp spec fn color_set_of(image: mathjax::Render) -> bool;

/// `s` with every occurrence of `from`, taken from left to right without
/// overlap, replaced by `to`.
pub open spec fn replaced(s: Seq<char>, from: Seq<char>, to: Seq<char>) -> Seq<char>
    recommends
        from.len() > 0,
    decreases s.len(),
{
    if from.len() == 0 || s.len() < from.len() {
        s
    } else if s.subrange(0, from.len() as int) == from {
        to + replaced(s.subrange(from.len() as int, s.len() as int), from, to)
    } else {
        seq![s[0]] + replaced(s.drop_first(), from, to)
    }
}

/// Relies on mathjax::MathJax::render: typesets the expression, or refuses it.
/// Whether it succeeds depends on the engine; an image it returns has no
/// color set yet.
pub assume_specification<S>[ mathjax::MathJax::render::<S> ](
    renderer: &mathjax::MathJax,
    expression: S,
) -> (r: Result<mathjax::Render, mathjax::RenderError>)
    where
        S: AsRef<str>,
    ensures
        r is Ok ==> !color_set_of(r->Ok_0),
;

/// Relies on mathjax::Render::set_color: the first time it is called on an
/// image, it replaces every `currentColor` in the SVG by the given color and
/// returns `true`; later calls change nothing and return `false`.
pub assume_specification[ mathjax::Render::set_color ](
    image: &mut mathjax::Render,
    color: &str,
) -> (r: bool)
    ensures
        r == !color_set_of(*old(image)),
        color_set_of(*final(image)),
        !color_set_of(*old(image)) ==> svg_of(*final(image)) == replaced(
            svg_of(*old(image)),
            "currentColor"@,
            color@,
        ),
        color_set_of(*old(image)) ==> *final(image) == *old(image),
;

/// The text that std's `Debug` gives a `Duration` of `secs` seconds and
/// `nanos` nanoseconds.
pub uninterp spec fn duration_debug_of(secs: nat, nanos: nat) -> Seq<char>;

/// Relies on std's `Debug` for `std::time::Duration`: the text depends on the
/// two numbers alone. `Duration::new` does not panic when `nanos` is below
/// one second.
#[verifier::external_body]
pub(crate) fn duration_text(secs: u64, nanos: u32) -> (r: String)
    requires
        nanos < 1_000_000_000,
    ensures
        r@ == duration_debug_of(secs as nat, nanos as nat),
{
    format!("{:?}", std::time::Duration::new(secs, nanos))
}

} // verus!
