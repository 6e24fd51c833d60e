//! The text sink that values are serialized into.
//!
//! The sink is `style_traits::CssWriter` over a `String`. Verus cannot look inside it, so
//! what it holds is described by two names, [`written`] and [`pending`], and the two
//! operations used by this crate are given contracts over those names. Those contracts
//! are not proved: they restate what the source of `style_traits` shows.

use std::fmt::Write;
use style_traits::CssWriter;
use vstd::prelude::*;

verus! {

/// `style_traits::CssWriter`, carried through verified code as an opaque value.
#[verifier::external_type_specification]
#[verifier::external_body]
#[verifier::reject_recursive_types(W)]
pub struct ExCssWriter<'w, W: 'w>(CssWriter<'w, W>);

/// `std::fmt::Error`, the failure of a formatting operation.
#[verifier::external_type_specification]
#[verifier::external_body]
pub struct ExFmtError(std::fmt::Error);

/// The text in the `String` that the writer was made over.
pub uninterp spec fn written(w: CssWriter<String>) -> Seq<char>;

/// The writer's prefix: the separator that a `SequenceWriter` has left with the writer
/// and that is written in front of the next non-empty output. Empty where the writer
/// holds no prefix or an empty one.
pub uninterp spec fn pending(w: CssWriter<String>) -> Seq<char>;

/// How a writer changes when `text` is sent to it, piece by piece: nothing happens for
/// an empty text; otherwise the prefix is written first, then the text, and no prefix
/// is left.
pub open spec fn emitted(before: CssWriter<String>, after: CssWriter<String>, text: Seq<char>) -> bool {
    if text.len() == 0 {
        written(after) == written(before) && pending(after) == pending(before)
    } else {
        written(after) == written(before) + pending(before) + text && pending(after)
            == Seq::<char>::empty()
    }
}

/// Sending `t1` and then `t2` is sending `t1 + t2`.
pub proof fn lemma_emitted_concat(
    a: CssWriter<String>,
    b: CssWriter<String>,
    c: CssWriter<String>,
    t1: Seq<char>,
    t2: Seq<char>,
)
    requires
        emitted(a, b, t1),
        emitted(b, c, t2),
    ensures
        emitted(a, c, t1 + t2),
{
    if t1.len() == 0 {
        assert(t1 + t2 =~= t2);
    } else if t2.len() == 0 {
        assert(t1 + t2 =~= t1);
    } else {
        assert(written(a) + pending(a) + t1 + pending(b) + t2 =~= written(a) + pending(a) + (t1
            + t2));
    }
}

/// Calls `<CssWriter<String> as std::fmt::Write>::write_str`.
///
/// For an empty `s` the writer returns at once and nothing changes. Otherwise it takes
/// its prefix, writes it to the string if it is not empty, and then writes `s`. Both
/// writes go to a `String`, whose `fmt::Write` never returns an error, so the call
/// returns `Ok`.
#[verifier::external_body]
pub(crate) fn write_str(dest: &mut CssWriter<String>, s: &str) -> (r: Result<(), std::fmt::Error>)
    ensures
        r is Ok,
        s@.len() == 0 ==> written(*final(dest)) == written(*old(dest)) && pending(*final(dest))
            == pending(*old(dest)),
        s@.len() > 0 ==> written(*final(dest)) == written(*old(dest)) + pending(*old(dest)) + s@
            && pending(*final(dest)) == Seq::<char>::empty(),
{
    dest.write_str(s)
}

/// Calls `<CssWriter<String> as std::fmt::Write>::write_char`.
///
/// The writer takes its prefix, writes it to the string if it is not empty, and then
/// writes `c`. Both writes go to a `String`, whose `fmt::Write` never returns an error,
/// so the call returns `Ok`.
#[verifier::external_body]
pub(crate) fn write_char(dest: &mut CssWriter<String>, c: char) -> (r: Result<(), std::fmt::Error>)
    ensures
        r is Ok,
        written(*final(dest)) == written(*old(dest)) + pending(*old(dest)) + seq![c],
        pending(*final(dest)) == Seq::<char>::empty(),
{
    dest.write_char(c)
}

/// Writes `s` after `done` has been sent since `start`.
pub(crate) fn put_str(
    dest: &mut CssWriter<String>,
    s: &str,
    Ghost(start): Ghost<CssWriter<String>>,
    Ghost(done): Ghost<Seq<char>>,
) -> (r: Result<(), std::fmt::Error>)
    requires
        emitted(start, *old(dest), done),
    ensures
        r is Ok,
        emitted(start, *final(dest), done + s@),
{
    let ghost before = *dest;
    let r = write_str(dest, s);
    proof {
        lemma_emitted_concat(start, before, *dest, done, s@);
    }
    r
}

/// Writes `c` after `done` has been sent since `start`.
pub(crate) fn put_char(
    dest: &mut CssWriter<String>,
    c: char,
    Ghost(start): Ghost<CssWriter<String>>,
    Ghost(done): Ghost<Seq<char>>,
) -> (r: Result<(), std::fmt::Error>)
    requires
        emitted(start, *old(dest), done),
    ensures
        r is Ok,
        emitted(start, *final(dest), done + seq![c]),
{
    let ghost before = *dest;
    let r = write_char(dest, c);
    proof {
        lemma_emitted_concat(start, before, *dest, done, seq![c]);
    }
    r
}

} // verus!
