use vstd::prelude::*;
use vstd::slice::slice_subrange;

verus! {

/// The pieces of `s` between NUL bytes, in order; `s` with no NUL is one piece.
pub open spec fn split_nul(s: Seq<u8>) -> Seq<Seq<u8>>
    decreases s.len(),
{
    if s.len() == 0 {
        seq![Seq::<u8>::empty()]
    } else {
        let rest = split_nul(s.drop_last());
        if s.last() == 0 {
            rest.push(Seq::<u8>::empty())
        } else {
            rest.update(rest.len() - 1, rest.last().push(s.last()))
        }
    }
}

/// The strings of a string table, given the bytes in front of its closing
/// double NUL: an empty area holds no string, else the area split on NUL.
pub open spec fn string_table(area: Seq<u8>) -> Seq<Seq<u8>> {
    if area.len() == 0 {
        Seq::empty()
    } else {
        split_nul(area)
    }
}

/// What a 1-based string index resolves to: `None` for `0` (no string set),
/// the string for `1..=N`, and the empty string past the end of the table.
pub open spec fn string_lookup(table: Seq<Seq<u8>>, index: u8) -> Option<Seq<u8>> {
    if index == 0 {
        None
    } else if index <= table.len() {
        Some(table[index - 1])
    } else {
        Some(Seq::empty())
    }
}

/// The byte contents of a sequence of slices.
pub open spec fn slices_view(s: Seq<&[u8]>) -> Seq<Seq<u8>> {
    s.map_values(|x: &[u8]| x@)
}

/// The byte contents of an optional slice.
pub open spec fn opt_slice_view(s: Option<&[u8]>) -> Option<Seq<u8>> {
    match s {
        None => None,
        Some(x) => Some(x@),
    }
}

/// Splits the area in front of a string table's closing double NUL into its
/// strings, each borrowed from `area`.
pub fn parse_strings<'a>(area: &'a [u8]) -> (r: Vec<&'a [u8]>)
    ensures
        slices_view(r@) == string_table(area@),
{
    let mut out: Vec<&'a [u8]> = Vec::new();
    let n = area.len();
    if n == 0 {
        assert(slices_view(out@) =~= string_table(area@));
        return out;
    }
    let mut seg: usize = 0;
    let mut i: usize = 0;
    assert(area@.take(0) =~= Seq::<u8>::empty());
    assert(slices_view(out@).push(area@.subrange(0, 0)) =~= split_nul(area@.take(0)));
    while i < n
        invariant
            n == area@.len(),
            seg <= i <= n,
            split_nul(area@.take(i as int)) == slices_view(out@).push(
                area@.subrange(seg as int, i as int),
            ),
        decreases n - i,
    {
        assert(area@.take(i + 1).drop_last() =~= area@.take(i as int));
        assert(area@.take(i + 1).last() == area@[i as int]);
        if area[i] == 0 {
            let ghost old_out = out@;
            let piece = slice_subrange(area, seg, i);
            out.push(piece);
            assert(slices_view(out@) =~= slices_view(old_out).push(
                area@.subrange(seg as int, i as int),
            ));
            seg = i + 1;
            assert(area@.subrange(seg as int, seg as int) =~= Seq::<u8>::empty());
        } else {
            assert(area@.subrange(seg as int, i + 1) =~= area@.subrange(seg as int, i as int).push(
                area@[i as int],
            ));
        }
        i = i + 1;
        assert(split_nul(area@.take(i as int)) =~~= slices_view(out@).push(
            area@.subrange(seg as int, i as int),
        ));
    }
    assert(area@.take(n as int) =~= area@);
    let last = slice_subrange(area, seg, n);
    out.push(last);
    assert(slices_view(out@) =~= string_table(area@));
    out
}

} // verus!
