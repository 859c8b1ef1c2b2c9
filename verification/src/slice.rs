//! Realizations of the input contracts for contiguous sequences.

use vstd::prelude::*;
use vstd::slice::slice_index_get;
use vstd::slice::slice_subrange;
use vstd::string::StringSliceAdditionalSpecFns;

use crate::Parse;
use crate::ParseElem;
use crate::ParseLiteral;
use crate::ParseSlice;
use crate::RuleResult;

verus! {

impl<T> Parse for [T] {
    type PositionRepr = usize;

    open spec fn input_len(&self) -> nat {
        self@.len()
    }

    open spec fn repr_at(&self, pos: usize) -> usize {
        pos
    }

    fn start(&self) -> (pos: usize)
        ensures
            pos == 0,
    {
        0
    }

    fn is_eof(&self, pos: usize) -> (eof: bool)
        ensures
            eof == (pos >= self@.len()),
    {
        pos >= self.len()
    }

    fn position_repr(&self, pos: usize) -> (repr: usize)
        ensures
            repr == pos,
    {
        pos
    }
}

/// The copy realization of element access: the item type is trivially
/// duplicable, and a read copies the item out of the sequence.
impl<T: Copy> ParseElem for [T] {
    type Element = T;

    open spec fn elem_at(&self, i: int, e: T) -> bool {
        0 <= i < self@.len() && e == self@[i]
    }

    fn parse_elem(&self, pos: usize) -> (r: RuleResult<T>)
        ensures
            pos < self@.len() ==> r == RuleResult::<T>::Matched(
                (pos + 1) as usize,
                self@[pos as int],
            ),
            pos >= self@.len() ==> r == RuleResult::<T>::Failed,
    {
        if pos < self.len() {
            RuleResult::Matched(pos + 1, *slice_index_get(self, pos))
        } else {
            RuleResult::Failed
        }
    }
}

impl ParseLiteral for [u8] {
    open spec fn literal_at(&self, pos: int, lit: Seq<u8>) -> bool {
        0 <= pos && pos + lit.len() <= self@.len() && self@.subrange(
            pos,
            pos + lit.len() as int,
        ) == lit
    }

    fn parse_string_literal(&self, pos: usize, literal: &str) -> (r: RuleResult<()>)
        ensures
            self.literal_at(pos as int, literal.spec_bytes()) <==> r == RuleResult::<()>::Matched(
                (pos + literal.spec_bytes().len()) as usize,
                (),
            ),
            !self.literal_at(pos as int, literal.spec_bytes()) <==> r == RuleResult::<()>::Failed,
    {
        let lit: &[u8] = literal.as_bytes();
        let l: usize = lit.len();
        let n: usize = self.len();
        if pos <= n && l <= n - pos {
            let ghost target = self@.subrange(pos as int, pos + l as int);
            let mut k: usize = 0;
            while k < l
                invariant
                    k <= l,
                    pos + l <= n,
                    n == self@.len(),
                    l == lit@.len(),
                    lit@ == literal.spec_bytes(),
                    target == self@.subrange(pos as int, pos + l as int),
                    forall|j: int| 0 <= j < k ==> target[j] == lit@[j],
                decreases l - k,
            {
                if *slice_index_get(self, pos + k) != *slice_index_get(lit, k) {
                    proof {
                        assert(target[k as int] == self@[pos + k]);
                    }
                    return RuleResult::Failed;
                }
                proof {
                    assert(target[k as int] == self@[pos + k]);
                }
                k += 1;
            }
            proof {
                assert(target =~= lit@);
            }
            RuleResult::Matched(pos + l, ())
        } else {
            RuleResult::Failed
        }
    }
}

impl<'input, T: 'input> ParseSlice<'input> for [T] {
    type Slice = &'input [T];

    open spec fn slice_at(&self, p1: int, p2: int, s: &'input [T]) -> bool {
        0 <= p1 <= p2 <= self@.len() && s@ == self@.subrange(p1, p2)
    }

    fn parse_slice(&'input self, p1: usize, p2: usize) -> (s: &'input [T])
        ensures
            s@ == self@.subrange(p1 as int, p2 as int),
            s@.len() == p2 - p1,
            forall|k: int| 0 <= k < p2 - p1 ==> s@[k] == self@[p1 + k],
    {
        slice_subrange(self, p1, p2)
    }
}

/// The reference-wrapped input: a borrowed view over a sequence whose item
/// type may be arbitrary. Element access hands out references into the
/// underlying storage instead of values, so items need not be duplicable;
/// everything else behaves as the direct realization over the same sequence.
/// Literal matching is not offered: it is reserved for byte sequences.
pub struct SliceByRef<'input, T>(pub &'input [T]);

impl<'input, T> From<&'input [T]> for SliceByRef<'input, T> {
    fn from(value: &'input [T]) -> (s: Self) {
        SliceByRef(value)
    }
}

impl<'input, T> vstd::std_specs::convert::FromSpecImpl<&'input [T]> for SliceByRef<'input, T> {
    open spec fn obeys_from_spec() -> bool {
        true
    }

    open spec fn from_spec(value: &'input [T]) -> Self {
        SliceByRef(value)
    }
}

impl<'input, T> Parse for SliceByRef<'input, T> {
    type PositionRepr = usize;

    open spec fn input_len(&self) -> nat {
        self.0@.len()
    }

    open spec fn repr_at(&self, pos: usize) -> usize {
        pos
    }

    fn start(&self) -> (pos: usize)
        ensures
            pos == 0,
    {
        0
    }

    fn is_eof(&self, pos: usize) -> (eof: bool)
        ensures
            eof == (pos >= self.0@.len()),
    {
        pos >= self.0.len()
    }

    fn position_repr(&self, pos: usize) -> (repr: usize)
        ensures
            repr == pos,
    {
        pos
    }
}

/// The reference realization of element access: a read produces a reference
/// to the item inside the underlying storage, valid for all of `'input`, and
/// duplicates nothing.
impl<'input, T> ParseElem for SliceByRef<'input, T> {
    type Element = &'input T;

    open spec fn elem_at(&self, i: int, e: &'input T) -> bool {
        0 <= i < self.0@.len() && *e == self.0@[i]
    }

    fn parse_elem(&self, pos: usize) -> (r: RuleResult<&'input T>)
        ensures
            pos < self.0@.len() ==> (r matches RuleResult::Matched(next, e) && next == pos + 1
                && *e == self.0@[pos as int]),
            pos >= self.0@.len() ==> r is Failed,
    {
        if pos < self.0.len() {
            RuleResult::Matched(pos + 1, slice_index_get(self.0, pos))
        } else {
            RuleResult::Failed
        }
    }
}

impl<'input, T> ParseSlice<'input> for SliceByRef<'input, T> {
    type Slice = &'input [T];

    open spec fn slice_at(&self, p1: int, p2: int, s: &'input [T]) -> bool {
        0 <= p1 <= p2 <= self.0@.len() && s@ == self.0@.subrange(p1, p2)
    }

    fn parse_slice(&'input self, p1: usize, p2: usize) -> (s: &'input [T])
        ensures
            s@ == self.0@.subrange(p1 as int, p2 as int),
            s@.len() == p2 - p1,
            forall|k: int| 0 <= k < p2 - p1 ==> s@[k] == self.0@[p1 + k],
    {
        slice_subrange(self.0, p1, p2)
    }
}

/// The duplicating input: a borrowed view over a sequence whose item type
/// supports explicit duplication but not a bitwise copy. Element access
/// clones the item out; everything else behaves as the direct realization
/// over the same sequence. Literal matching is not offered: it is reserved
/// for byte sequences.
pub struct SliceByClone<'input, T>(pub &'input [T]);

impl<'input, T> Parse for SliceByClone<'input, T> {
    type PositionRepr = usize;

    open spec fn input_len(&self) -> nat {
        self.0@.len()
    }

    open spec fn repr_at(&self, pos: usize) -> usize {
        pos
    }

    fn start(&self) -> (pos: usize)
        ensures
            pos == 0,
    {
        0
    }

    fn is_eof(&self, pos: usize) -> (eof: bool)
        ensures
            eof == (pos >= self.0@.len()),
    {
        pos >= self.0.len()
    }

    fn position_repr(&self, pos: usize) -> (repr: usize)
        ensures
            repr == pos,
    {
        pos
    }
}

/// The duplicate realization of element access: a read clones the item at
/// the position. The produced value is a clone of the stored item; for item
/// types whose `Clone` is equality-preserving this is the item itself.
impl<'input, T: Clone> ParseElem for SliceByClone<'input, T> {
    type Element = T;

    open spec fn elem_at(&self, i: int, e: T) -> bool {
        0 <= i < self.0@.len() && cloned(self.0@[i], e)
    }

    fn parse_elem(&self, pos: usize) -> (r: RuleResult<T>)
        ensures
            pos < self.0@.len() ==> (r matches RuleResult::Matched(next, e) && next == pos + 1
                && cloned(self.0@[pos as int], e)),
            pos >= self.0@.len() ==> r is Failed,
    {
        if pos < self.0.len() {
            let elem: &T = slice_index_get(self.0, pos);
            RuleResult::Matched(pos + 1, elem.clone())
        } else {
            RuleResult::Failed
        }
    }
}

impl<'input, T> ParseSlice<'input> for SliceByClone<'input, T> {
    type Slice = &'input [T];

    open spec fn slice_at(&self, p1: int, p2: int, s: &'input [T]) -> bool {
        0 <= p1 <= p2 <= self.0@.len() && s@ == self.0@.subrange(p1, p2)
    }

    fn parse_slice(&'input self, p1: usize, p2: usize) -> (s: &'input [T])
        ensures
            s@ == self.0@.subrange(p1 as int, p2 as int),
            s@.len() == p2 - p1,
            forall|k: int| 0 <= k < p2 - p1 ==> s@[k] == self.0@[p1 + k],
    {
        slice_subrange(self.0, p1, p2)
    }
}

/// Law: for the same underlying sequence, the reference-wrapped input agrees
/// with the direct realization on its coordinate system — the same length
/// (hence the same end-of-input answer at every position) and the same
/// diagnostic rendering of every position.
pub proof fn lemma_by_ref_same_coordinates<'input, T>(w: SliceByRef<'input, T>)
    ensures
        w.input_len() == w.0.input_len(),
        forall|pos: usize| w.repr_at(pos) == w.0.repr_at(pos),
{
}

/// Law: element access through the reference realization produces a
/// reference to exactly the value the direct, copying realization produces
/// at the same position of the same sequence — `e` is a valid reference
/// result at index `i` if and only if the value it points to is a valid
/// copy result there.
pub proof fn lemma_by_ref_elem_agrees<'input, T: Copy>(
    w: SliceByRef<'input, T>,
    i: int,
    e: &'input T,
)
    ensures
        w.elem_at(i, e) <==> w.0.elem_at(i, *e),
{
}

/// Law: sub-range extraction through the reference-wrapped input yields
/// views identical to the direct realization's over the same sequence.
pub proof fn lemma_by_ref_slice_agrees<'input, T>(
    w: SliceByRef<'input, T>,
    p1: int,
    p2: int,
    s: &'input [T],
)
    ensures
        w.slice_at(p1, p2, s) <==> w.0.slice_at(p1, p2, s),
{
}

} // verus!
