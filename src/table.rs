use vstd::prelude::*;

use crate::error::DecodeError;
use crate::parts::SMBiosStructParts;
use crate::strings::string_table;

verus! {

/// The SMBIOS version that a platform reports beside its table.
#[derive(Clone, Copy, Debug, PartialEq, Eq, Structural)]
pub struct SMBiosVersion {
    /// Major version of the standard.
    pub major: u8,
    /// Minor version of the standard.
    pub minor: u8,
    /// Revision (the DMI revision on platforms that report one).
    pub revision: u8,
}

/// Where one structure lies in a table: its start, the length of its formatted
/// area, and the offset just past the double NUL that closes its string table.
pub struct SpanModel {
    /// Offset of the structure's first header byte.
    pub offset: int,
    /// Declared length of the formatted area, header included.
    pub length: int,
    /// Offset just past the closing double NUL.
    pub end: int,
}

/// The offset just past the first double NUL at or after `p`, if any.
pub open spec fn find_terminator(t: Seq<u8>, p: int) -> Option<int>
    decreases t.len() - p,
{
    if p < 0 || p + 1 >= t.len() {
        None
    } else if t[p] == 0 && t[p + 1] == 0 {
        Some(p + 2)
    } else {
        find_terminator(t, p + 1)
    }
}

proof fn lemma_find_terminator(t: Seq<u8>, p: int)
    ensures
        find_terminator(t, p) matches Some(e) ==> {
            &&& p + 2 <= e <= t.len()
            &&& t[e - 2] == 0
            &&& t[e - 1] == 0
        },
    decreases t.len() - p,
{
    if !(p < 0 || p + 1 >= t.len()) && !(t[p] == 0 && t[p + 1] == 0) {
        lemma_find_terminator(t, p + 1);
    }
}

/// Whether the structure at `off` has a readable header and formatted area:
/// 4 header bytes, a declared length of at least 4, and that many bytes.
pub open spec fn header_fits(t: Seq<u8>, off: int) -> bool {
    &&& off + 4 <= t.len()
    &&& t[off + 1] >= 4
    &&& off + t[off + 1] <= t.len()
}

/// The structures of `t` from offset `off` on, and the offset of a
/// malformed structure that stopped the walk, if one did. The walk ends after
/// an End-of-Table structure (type 127) or where the bytes run out.
pub open spec fn walk_from(t: Seq<u8>, off: int) -> (Seq<SpanModel>, Option<int>)
    decreases t.len() - off via walk_from_decreases
{
    if off < 0 || off >= t.len() {
        (Seq::empty(), None)
    } else if !header_fits(t, off) {
        (Seq::empty(), Some(off))
    } else {
        match find_terminator(t, off + t[off + 1]) {
            None => (Seq::empty(), Some(off)),
            Some(e) => {
                let s = SpanModel { offset: off, length: t[off + 1] as int, end: e };
                if t[off] == 127 {
                    (seq![s], None)
                } else {
                    let rest = walk_from(t, e);
                    (seq![s] + rest.0, rest.1)
                }
            },
        }
    }
}

#[via_fn]
proof fn walk_from_decreases(t: Seq<u8>, off: int) {
    if !(off < 0 || off >= t.len()) && header_fits(t, off) {
        lemma_find_terminator(t, off + t[off + 1]);
    }
}

/// The structures that a walk of the whole table yields.
pub open spec fn walk_spans(t: Seq<u8>) -> Seq<SpanModel> {
    walk_from(t, 0).0
}

/// The error that stopped a walk that started at `start`, if one did.
pub open spec fn walk_error_from(t: Seq<u8>, start: int) -> Option<DecodeError> {
    match walk_from(t, start).1 {
        None => None,
        Some(off) => Some(DecodeError::TruncatedStructure(off as usize)),
    }
}

/// The error that stopped a walk of the whole table, if one did.
pub open spec fn walk_error(t: Seq<u8>) -> Option<DecodeError> {
    walk_error_from(t, 0)
}

/// Where a decoded structure lies in its table.
pub open spec fn span_of(p: SMBiosStructParts) -> SpanModel {
    SpanModel {
        offset: p.offset_view(),
        length: p.fields_view().len() as int,
        end: p.offset_view() + p.byte_length_view(),
    }
}

/// Where each of a sequence of decoded structures lies.
pub open spec fn spans_of(ps: Seq<SMBiosStructParts>) -> Seq<SpanModel> {
    ps.map_values(|p: SMBiosStructParts| span_of(p))
}

/// A decoded structure holds exactly the bytes of `t` that its span covers.
pub open spec fn parts_match(p: SMBiosStructParts, t: Seq<u8>, s: SpanModel) -> bool {
    &&& p.wf()
    &&& span_of(p) == s
    &&& p.fields_view() == t.subrange(s.offset, s.offset + s.length)
    &&& p.strings_view() == string_table(t.subrange(s.offset + s.length, s.end - 2))
}

/// The bytes that a sequence of spans covers, terminators included.
pub open spec fn total_length(s: Seq<SpanModel>) -> int
    decreases s.len(),
{
    if s.len() == 0 {
        0
    } else {
        (s[0].end - s[0].offset) + total_length(s.drop_first())
    }
}

/// The offset where a walk that started at `start` and yielded `s` stopped reading.
pub open spec fn consumed(s: Seq<SpanModel>, start: int) -> int {
    if s.len() == 0 {
        start
    } else {
        s.last().end
    }
}

/// The spans of a walk lie one after the other from `start` on, each inside
/// the table, each with room for its formatted area and terminator.
pub open spec fn spans_tile(s: Seq<SpanModel>, t: Seq<u8>, start: int) -> bool {
    &&& s.len() > 0 ==> s[0].offset == start
    &&& forall|i: int| 0 <= i < s.len() - 1 ==> #[trigger] s[i + 1].offset == s[i].end
    &&& forall|i: int|
        0 <= i < s.len() ==> s[i].offset + 4 <= s[i].offset + #[trigger] s[i].length
            && s[i].offset + s[i].length + 2 <= s[i].end <= t.len()
}

proof fn lemma_walk_from_tiles(t: Seq<u8>, off: int)
    requires
        0 <= off,
    ensures
        spans_tile(walk_from(t, off).0, t, off),
        total_length(walk_from(t, off).0) == consumed(walk_from(t, off).0, off) - off,
        off <= t.len() ==> consumed(walk_from(t, off).0, off) <= t.len(),
    decreases t.len() - off,
{
    if !(off >= t.len()) && header_fits(t, off) {
        let p = off + t[off + 1];
        lemma_find_terminator(t, p);
        if let Some(e) = find_terminator(t, p) {
            if t[off] != 127 {
                lemma_walk_from_tiles(t, e);
                let s = SpanModel { offset: off, length: t[off + 1] as int, end: e };
                let rest = walk_from(t, e).0;
                let all = seq![s] + rest;
                assert(all.drop_first() =~= rest);
                if rest.len() > 0 {
                    assert(all.last() == rest.last());
                }
                assert(total_length(all) == (e - off) + total_length(rest));
                assert forall|i: int| 0 <= i < all.len() - 1 implies #[trigger] all[i + 1].offset
                    == all[i].end by {
                    if i > 0 {
                        assert(all[i] == rest[i - 1]);
                        assert(all[i + 1] == rest[i]);
                    }
                }
                assert forall|i: int| 0 <= i < all.len() implies all[i].offset + 4 <= all[i].offset
                    + #[trigger] all[i].length && all[i].offset + all[i].length + 2 <= all[i].end
                    <= t.len() by {
                    if i > 0 {
                        assert(all[i] == rest[i - 1]);
                    }
                }
            } else {
                let s = SpanModel { offset: off, length: t[off + 1] as int, end: e };
                assert(seq![s].drop_first() =~= Seq::<SpanModel>::empty());
                assert(total_length(seq![s]) == (e - off) + total_length(Seq::<SpanModel>::empty()));
            }
        }
    }
}

/// The structures that one walk of a table yields lie one after another
/// from its start, each inside the table; the bytes they cover, terminators
/// included, add up to exactly the part of the table the walk consumed, which
/// never runs past the table's end.
pub proof fn lemma_walk_consumes_exactly(t: Seq<u8>)
    ensures
        spans_tile(walk_spans(t), t, 0),
        total_length(walk_spans(t)) == consumed(walk_spans(t), 0),
        consumed(walk_spans(t), 0) <= t.len(),
{
    lemma_walk_from_tiles(t, 0);
}

/// The offset just past the first double NUL at or after `p`, if any.
fn find_terminator_exec(t: &[u8], p: usize) -> (r: Option<usize>)
    requires
        p <= t@.len(),
    ensures
        r matches Some(e) ==> find_terminator(t@, p as int) == Some(e as int),
        r is None ==> find_terminator(t@, p as int) is None,
{
    let n = t.len();
    let mut i: usize = p;
    while n - i >= 2
        invariant
            n == t@.len(),
            p <= i <= n,
            find_terminator(t@, p as int) == find_terminator(t@, i as int),
        decreases n - i,
    {
        if t[i] == 0 && t[i + 1] == 0 {
            return Some(i + 2);
        }
        i = i + 1;
    }
    None
}

/// The structures of a table in order, and the error that stopped the walk
/// early, if one did.
pub struct TableWalk<'a> {
    /// The structures read before the walk ended.
    pub structs: Vec<SMBiosStructParts<'a>>,
    /// The malformed structure that ended the walk, if one did.
    pub error: Option<DecodeError>,
}

/// A raw SMBIOS structure table together with the version reported for it, if any.
#[derive(Debug)]
pub struct SMBiosData {
    table: Vec<u8>,
    version: Option<SMBiosVersion>,
}

impl SMBiosData {
    /// The bytes of the structure table.
    pub closed spec fn table_view(&self) -> Seq<u8> {
        self.table@
    }

    /// The version reported with the table.
    pub closed spec fn version_view(&self) -> Option<SMBiosVersion> {
        self.version
    }

    /// Takes ownership of a raw table and an optional version.
    pub fn from_vec_and_version(table: Vec<u8>, version: Option<SMBiosVersion>) -> (r: SMBiosData)
        ensures
            r.table_view() == table@,
            r.version_view() == version,
    {
        SMBiosData { table, version }
    }

    /// The raw bytes of the table.
    pub fn raw_data(&self) -> (r: &[u8])
        ensures
            r@ == self.table_view(),
    {
        self.table.as_slice()
    }

    /// Splits the table into its structures, in order. The walk stops after
    /// an End-of-Table structure or at the end of the bytes; a structure whose
    /// header or formatted area runs past the end, whose declared length is
    /// under 4, or whose string table is not closed stops it with an error,
    /// and the structures before it are still returned.
    pub fn walk(&self) -> (r: TableWalk<'_>)
        ensures
            spans_of(r.structs@) == walk_spans(self.table_view()),
            r.error == walk_error(self.table_view()),
            forall|i: int|
                0 <= i < r.structs@.len() ==> (#[trigger] r.structs@[i]).version_view()
                    == self.version_view(),
            forall|i: int|
                0 <= i < r.structs@.len() ==> parts_match(
                    #[trigger] r.structs@[i],
                    self.table_view(),
                    walk_spans(self.table_view())[i],
                ),
    {
        self.walk_at(0)
    }

    /// Walks the table as `walk` does, starting at byte offset `start`; a
    /// start at or past the end yields nothing.
    pub fn walk_at(&self, start: usize) -> (r: TableWalk<'_>)
        ensures
            spans_of(r.structs@) == walk_from(self.table_view(), start as int).0,
            r.error == walk_error_from(self.table_view(), start as int),
            forall|i: int|
                0 <= i < r.structs@.len() ==> (#[trigger] r.structs@[i]).version_view()
                    == self.version_view(),
            forall|i: int|
                0 <= i < r.structs@.len() ==> parts_match(
                    #[trigger] r.structs@[i],
                    self.table_view(),
                    walk_from(self.table_view(), start as int).0[i],
                ),
    {
        let t = self.table.as_slice();
        let ghost tv = t@;
        let n = t.len();
        let mut out: Vec<SMBiosStructParts<'_>> = Vec::new();
        if start >= n {
            assert(spans_of(out@) =~= walk_from(tv, start as int).0);
            return TableWalk { structs: out, error: None };
        }
        let mut off: usize = start;
        assert(spans_of(out@) + walk_from(tv, start as int).0 =~= walk_from(tv, start as int).0);
        loop
            invariant
                n == tv.len(),
                t@ == tv,
                tv == self.table_view(),
                off <= n,
                walk_from(tv, start as int).0 == spans_of(out@) + walk_from(tv, off as int).0,
                walk_from(tv, start as int).1 == walk_from(tv, off as int).1,
                forall|i: int|
                    0 <= i < out@.len() ==> (#[trigger] out@[i]).version_view() == self.version_view(),
                forall|i: int|
                    0 <= i < out@.len() ==> parts_match(
                        #[trigger] out@[i],
                        tv,
                        walk_from(tv, start as int).0[i],
                    ),
            decreases n - off,
        {
            if off >= n {
                assert(spans_of(out@) =~= walk_from(tv, start as int).0);
                return TableWalk { structs: out, error: None };
            }
            if n - off < 4 || t[off + 1] < 4 || n - off < t[off + 1] as usize {
                assert(spans_of(out@) =~= walk_from(tv, start as int).0);
                return TableWalk { structs: out, error: Some(DecodeError::TruncatedStructure(off)) };
            }
            let length = t[off + 1] as usize;
            match find_terminator_exec(t, off + length) {
                None => {
                    assert(spans_of(out@) =~= walk_from(tv, start as int).0);
                    return TableWalk {
                        structs: out,
                        error: Some(DecodeError::TruncatedStructure(off)),
                    };
                },
                Some(e) => {
                    proof {
                        lemma_find_terminator(tv, off + length);
                    }
                    let part = SMBiosStructParts::from_table(t, off, length, e, self.version);
                    let ty = t[off];
                    let ghost s = SpanModel { offset: off as int, length: length as int, end: e as int };
                    let ghost old_out = out@;
                    out.push(part);
                    assert(spans_of(out@) =~= spans_of(old_out).push(s));
                    assert(walk_from(tv, start as int).0[old_out.len() as int] == s);
                    if ty == 127 {
                        assert(spans_of(out@) =~= walk_from(tv, start as int).0);
                        return TableWalk { structs: out, error: None };
                    }
                    assert(walk_from(tv, start as int).0 =~= spans_of(out@) + walk_from(tv, e as int).0);
                    off = e;
                },
            }
        }
    }

    /// The version reported with the table.
    pub fn version(&self) -> (r: Option<SMBiosVersion>)
        ensures
            r == self.version_view(),
    {
        self.version
    }
}

} // verus!
