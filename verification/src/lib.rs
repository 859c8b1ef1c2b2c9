//! Input abstraction for a parsing-expression-grammar driver.
//!
//! A generated PEG driver repeatedly asks four questions of its input:
//! where does it start and is a position at the end (`Parse`), what single
//! item sits at a position (`ParseElem`), does a literal byte pattern occur
//! verbatim at a position (`ParseLiteral`), and what lies between two
//! positions (`ParseSlice`). Every reading operation answers with a
//! [`RuleResult`]: success carries the next position and the produced value,
//! failure carries nothing, and the driver backtracks by simply not advancing.
//!
//! The traits here state those contracts once; the [`slice`] module realizes
//! them for contiguous sequences, either copying items out, cloning them, or
//! handing out references.

use vstd::prelude::*;
use vstd::string::StringSliceAdditionalSpecFns;

pub mod slice;

verus! {

/// The outcome of one read operation: on success, the position just past
/// what was consumed together with the value produced; on failure, nothing.
///
/// A failed operation never advances the position; the caller is expected to
/// retry an alternative or propagate the failure.
#[derive(Clone, Copy, PartialEq, Eq, Debug)]
pub enum RuleResult<T> {
    /// Success: the next position, and the value read.
    Matched(usize, T),
    /// No match at the given position.
    Failed,
}

/// The coordinate system of an input source: its start position, its
/// end-of-input predicate, and a diagnostic rendering of a position.
pub trait Parse {
    /// How a position is shown in diagnostics produced by the caller.
    type PositionRepr;

    /// The number of items in the input.
    spec fn input_len(&self) -> nat;

    /// The diagnostic rendering of `pos`.
    spec fn repr_at(&self, pos: usize) -> Self::PositionRepr;

    /// The position at which a parse begins: always the index 0.
    fn start(&self) -> (pos: usize)
        ensures
            pos == 0,
    ;

    /// Whether `pos` is at or past the end of the input. Total: any
    /// position may be asked about, in range or not.
    fn is_eof(&self, pos: usize) -> (eof: bool)
        ensures
            eof == (pos >= self.input_len()),
    ;

    /// The diagnostic rendering of `pos`. Total: never fails.
    fn position_repr(&self, pos: usize) -> (repr: Self::PositionRepr)
        ensures
            repr == self.repr_at(pos),
    ;
}

/// Element access: read exactly one item at a position, advancing by one.
///
/// Each realization fixes, through [`elem_at`](ParseElem::elem_at), how the
/// produced value relates to the input's item at that index: the copy and
/// clone realizations produce the item's value, the reference realization a
/// reference to it.
pub trait ParseElem: Parse {
    /// What one successful read produces.
    type Element;

    /// Whether `e` is what element access produces for the item at index `i`.
    spec fn elem_at(&self, i: int, e: Self::Element) -> bool;

    /// Read the single item at `pos`: `Matched(pos + 1, item)` when `pos` is
    /// a valid index, `Failed` when `pos` is at or past the end.
    fn parse_elem(&self, pos: usize) -> (r: RuleResult<Self::Element>)
        ensures
            pos < self.input_len() ==> (r matches RuleResult::Matched(next, e) && next == pos + 1
                && self.elem_at(pos as int, e)),
            pos >= self.input_len() ==> r is Failed,
    ;
}

/// Literal matching: attempt an exact, byte-for-byte match of a pattern
/// starting at a position, advancing past it on success.
///
/// Only byte-oriented input sources offer this capability; a "literal" is
/// inherently a byte concept, so generic item sequences do not implement it.
pub trait ParseLiteral: Parse {
    /// Whether the byte pattern `lit` occurs verbatim at index `pos`, with
    /// the input holding at least `lit.len()` bytes from `pos` on.
    spec fn literal_at(&self, pos: int, lit: Seq<u8>) -> bool;

    /// Match the UTF-8 bytes of `literal` at `pos`: `Matched(pos + l, ())`
    /// for a literal of byte length `l` exactly when all `l` bytes are
    /// present and equal, `Failed` otherwise. An empty literal matches at
    /// every position up to and including the input's length, advancing by
    /// zero. Failure says nothing about how many bytes agreed.
    fn parse_string_literal(&self, pos: usize, literal: &str) -> (r: RuleResult<()>)
        ensures
            self.literal_at(pos as int, literal.spec_bytes()) ==> r == RuleResult::<()>::Matched(
                (pos + literal.spec_bytes().len()) as usize,
                (),
            ),
            !self.literal_at(pos as int, literal.spec_bytes()) ==> r is Failed,
            r matches RuleResult::Matched(next, _) ==> pos <= next,
    ;
}

/// Sub-range extraction: a zero-copy view of the input between two
/// previously obtained positions, used by the driver to capture matched
/// spans. The view borrows the original storage for the whole of `'input`.
pub trait ParseSlice<'input>: Parse {
    /// The borrowed view produced for a sub-range.
    type Slice;

    /// Whether `s` is the view of the input between indices `p1` and `p2`.
    spec fn slice_at(&self, p1: int, p2: int, s: Self::Slice) -> bool;

    /// The view of the input over `[p1, p2)`. Callers supply positions
    /// previously derived from this same input, in order and in range.
    fn parse_slice(&'input self, p1: usize, p2: usize) -> (s: Self::Slice)
        requires
            p1 <= p2 <= self.input_len(),
        ensures
            self.slice_at(p1 as int, p2 as int, s),
    ;
}

} // verus!
