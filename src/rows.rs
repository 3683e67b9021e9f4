//! Row storage: a gap buffer of rows from the `gapbuffer` crate, seen through
//! the sequence of rows it holds.

use vstd::prelude::*;
use gapbuffer::GapBuffer;

verus! {

#[verifier::external_type_specification]
#[verifier::external_body]
#[verifier::reject_recursive_types(T)]
pub struct ExGapBuffer<T>(GapBuffer<T>);

/// The rows that a gap buffer holds, in order, each as its characters.
pub uninterp spec fn rows_of(g: GapBuffer<Vec<char>>) -> Seq<Seq<char>>;

/// Relies on `GapBuffer::new`: the new buffer holds nothing.
#[verifier::external_body]
pub(crate) fn rows_new() -> (g: GapBuffer<Vec<char>>)
    ensures
        rows_of(g) == Seq::<Seq<char>>::empty(),
{
    GapBuffer::new()
}

/// Relies on `GapBuffer::len`: the number of elements held.
#[verifier::external_body]
pub(crate) fn rows_len(g: &GapBuffer<Vec<char>>) -> (n: usize)
    ensures
        n == rows_of(*g).len(),
{
    g.len()
}

/// Relies on `GapBuffer::insert`: the element lands at index `i` and the ones
/// from `i` on move up by one. It panics for `i > len`, which `requires` rules out.
#[verifier::external_body]
pub(crate) fn rows_insert(g: &mut GapBuffer<Vec<char>>, i: usize, row: Vec<char>)
    requires
        i <= rows_of(*old(g)).len(),
    ensures
        rows_of(*final(g)) == rows_of(*old(g)).insert(i as int, row@),
{
    g.insert(i, row)
}

/// Relies on `GapBuffer::remove`: for an index in range it takes that element
/// out and returns it; otherwise it returns `None` and changes nothing.
#[verifier::external_body]
pub(crate) fn rows_remove(g: &mut GapBuffer<Vec<char>>, i: usize) -> (r: Option<Vec<char>>)
    ensures
        i < rows_of(*old(g)).len() ==> r is Some && r->Some_0@ == rows_of(*old(g))[i as int]
            && rows_of(*final(g)) == rows_of(*old(g)).remove(i as int),
        i >= rows_of(*old(g)).len() ==> r is None && rows_of(*final(g)) == rows_of(*old(g)),
{
    g.remove(i)
}

/// Relies on indexing a `GapBuffer` (`Index<usize>`): the element at index `i`.
/// It panics for an index out of range, which `requires` rules out.
#[verifier::external_body]
pub(crate) fn row_at(g: &GapBuffer<Vec<char>>, i: usize) -> (r: &Vec<char>)
    requires
        i < rows_of(*g).len(),
    ensures
        r@ == rows_of(*g)[i as int],
{
    &g[i]
}

} // verus!
