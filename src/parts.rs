use vstd::prelude::*;
use vstd::slice::slice_subrange;

use crate::table::SMBiosVersion;
use crate::strings::{opt_slice_view, parse_strings, slices_view, string_lookup, string_table};

verus! {

/// The fixed 4-byte header of a structure.
#[derive(Clone, Copy, Debug, PartialEq, Eq, Structural)]
pub struct Header {
    /// The structure's type discriminant.
    pub struct_type: u8,
    /// The length of the formatted area, header included.
    pub length: u8,
    /// The structure's handle.
    pub handle: u16,
}

/// The little-endian value of two bytes.
pub open spec fn u16_le(b0: u8, b1: u8) -> int {
    b0 as int + 0x100 * b1 as int
}

/// The header that the first four bytes of `b` encode.
pub open spec fn header_of(b: Seq<u8>) -> Header
    recommends
        b.len() >= 4,
{
    Header { struct_type: b[0], length: b[1], handle: u16_le(b[2], b[3]) as u16 }
}

/// Decodes a structure header from the first four bytes of `b`.
pub fn header_from_bytes(b: &[u8]) -> (r: Header)
    requires
        b@.len() >= 4,
    ensures
        r == header_of(b@),
        r.handle == u16_le(b@[2], b@[3]),
{
    Header { struct_type: b[0], length: b[1], handle: b[2] as u16 + 0x100u16 * b[3] as u16 }
}

/// One structure of a table: where it lies in the table, its header, its
/// formatted area and its strings, all borrowed from the table's bytes.
#[derive(Debug)]
pub struct SMBiosStructParts<'a> {
    header: Header,
    fields: &'a [u8],
    strings: Vec<&'a [u8]>,
    offset: usize,
    byte_length: usize,
    version: Option<SMBiosVersion>,
}

/// Whether a reported version is known and is at least `major.minor`.
pub open spec fn version_at_least(v: Option<SMBiosVersion>, major: u8, minor: u8) -> bool {
    match v {
        None => false,
        Some(v) => v.major > major || (v.major == major && v.minor >= minor),
    }
}

impl<'a> SMBiosStructParts<'a> {
    /// The structure's header.
    pub closed spec fn header_view(&self) -> Header {
        self.header
    }

    /// The formatted area, header included.
    pub closed spec fn fields_view(&self) -> Seq<u8> {
        self.fields@
    }

    /// The strings of the string table, in order.
    pub closed spec fn strings_view(&self) -> Seq<Seq<u8>> {
        slices_view(self.strings@)
    }

    /// The offset of the structure in its table.
    pub closed spec fn offset_view(&self) -> int {
        self.offset as int
    }

    /// The bytes the structure occupies, string table and terminator included.
    pub closed spec fn byte_length_view(&self) -> int {
        self.byte_length as int
    }

    /// The version reported for the table the structure came from.
    pub closed spec fn version_view(&self) -> Option<SMBiosVersion> {
        self.version
    }

    /// The formatted area is as long as the header declares, and holds the header.
    pub open spec fn wf(&self) -> bool {
        &&& self.fields_view().len() == self.header_view().length
        &&& self.header_view().length >= 4
        &&& self.header_view() == header_of(self.fields_view())
    }

    #[verifier::type_invariant]
    spec fn inv(&self) -> bool {
        &&& self.fields@.len() == self.header.length
        &&& self.header.length >= 4
        &&& self.header == header_of(self.fields@)
    }

    /// Whether `width` bytes at `offset` lie inside the declared formatted area.
    pub open spec fn field_present(&self, offset: usize, width: int) -> bool {
        offset + width <= self.header_view().length
    }

    /// Cuts the structure that starts at `offset` out of `table`: its formatted
    /// area is `length` bytes long and its string table ends at `end`, just
    /// after the closing double NUL.
    pub(crate) fn from_table(
        table: &'a [u8],
        offset: usize,
        length: usize,
        end: usize,
        version: Option<SMBiosVersion>,
    ) -> (r: Self)
        requires
            4 <= length,
            offset + length + 2 <= end <= table@.len(),
            table@[offset + 1] == length,
        ensures
            r.wf(),
            r.header_view() == header_of(table@.subrange(offset as int, offset + 4)),
            r.fields_view() == table@.subrange(offset as int, offset + length),
            r.strings_view() == string_table(table@.subrange(offset + length, end - 2)),
            r.offset_view() == offset,
            r.byte_length_view() == end - offset,
            r.version_view() == version,
    {
        let fields = slice_subrange(table, offset, offset + length);
        let header = header_from_bytes(fields);
        let strings = parse_strings(slice_subrange(table, offset + length, end - 2));
        assert(table@.subrange(offset as int, offset + 4) =~= fields@.subrange(0, 4));
        SMBiosStructParts { header, fields, strings, offset, byte_length: end - offset, version }
    }

    /// The structure's header.
    pub fn header(&self) -> (r: Header)
        ensures
            r == self.header_view(),
            self.wf(),
    {
        proof {
            use_type_invariant(self);
        }
        self.header
    }

    /// The formatted area, header included.
    pub fn fields(&self) -> (r: &'a [u8])
        ensures
            r@ == self.fields_view(),
    {
        self.fields
    }

    /// The offset of the structure in its table.
    pub fn offset(&self) -> (r: usize)
        ensures
            r == self.offset_view(),
    {
        self.offset
    }

    /// The bytes the structure occupies, string table and terminator included.
    pub fn byte_length(&self) -> (r: usize)
        ensures
            r == self.byte_length_view(),
    {
        self.byte_length
    }

    /// The version reported for the table the structure came from.
    pub fn version(&self) -> (r: Option<SMBiosVersion>)
        ensures
            r == self.version_view(),
    {
        self.version
    }

    /// Whether the reported version is known and at least `major.minor`.
    /// Fields that the standard added in a later version than the one
    /// reported are best treated as absent even where the declared length
    /// covers them; without a reported version, every such field is.
    pub fn version_at_least(&self, major: u8, minor: u8) -> (r: bool)
        ensures
            r == version_at_least(self.version_view(), major, minor),
    {
        match self.version {
            None => false,
            Some(v) => v.major > major || (v.major == major && v.minor >= minor),
        }
    }

    /// The byte at `offset` of a field that the standard added in version
    /// `major.minor`: present only where the declared length covers it and
    /// the reported version is at least that one.
    pub fn get_field_byte_since(&self, offset: usize, major: u8, minor: u8) -> (r: Option<u8>)
        ensures
            r is None <==> !self.field_present(offset, 1) || !version_at_least(
                self.version_view(),
                major,
                minor,
            ),
            r matches Some(v) ==> v == self.fields_view()[offset as int],
    {
        if self.version_at_least(major, minor) {
            self.get_field_byte(offset)
        } else {
            None
        }
    }

    /// The number of strings in the string table.
    pub fn string_count(&self) -> (r: usize)
        ensures
            r == self.strings_view().len(),
    {
        self.strings.len()
    }

    /// Resolves a 1-based string index: `None` for `0`, the string for an
    /// index inside the table, and an empty string for one past its end.
    pub fn get_string(&self, index: u8) -> (r: Option<&'a [u8]>)
        ensures
            opt_slice_view(r) == string_lookup(self.strings_view(), index),
    {
        if index == 0 {
            None
        } else if (index as usize) <= self.strings.len() {
            Some(self.strings[index as usize - 1])
        } else {
            let empty = slice_subrange(self.fields, 0, 0);
            assert(empty@ =~= Seq::<u8>::empty());
            Some(empty)
        }
    }

    /// The byte at `offset` of the formatted area, or `None` where the
    /// declared length ends before it.
    pub fn get_field_byte(&self, offset: usize) -> (r: Option<u8>)
        ensures
            r is None <==> !self.field_present(offset, 1),
            r matches Some(v) ==> v == self.fields_view()[offset as int],
    {
        proof {
            use_type_invariant(self);
        }
        if offset < self.fields.len() {
            Some(self.fields[offset])
        } else {
            None
        }
    }

    /// The little-endian word at `offset` of the formatted area, or `None`
    /// where the declared length ends before its last byte.
    pub fn get_field_word(&self, offset: usize) -> (r: Option<u16>)
        ensures
            r is None <==> !self.field_present(offset, 2),
            r matches Some(v) ==> v == u16_le(
                self.fields_view()[offset as int],
                self.fields_view()[offset + 1],
            ),
    {
        proof {
            use_type_invariant(self);
        }
        if offset < self.fields.len() && self.fields.len() - offset >= 2 {
            Some(self.fields[offset] as u16 + 0x100u16 * self.fields[offset + 1] as u16)
        } else {
            None
        }
    }

    /// The little-endian double word at `offset` of the formatted area, or
    /// `None` where the declared length ends before its last byte.
    pub fn get_field_dword(&self, offset: usize) -> (r: Option<u32>)
        ensures
            r is None <==> !self.field_present(offset, 4),
            r matches Some(v) ==> v == crate::envelope::u32_le(
                self.fields_view()[offset as int],
                self.fields_view()[offset + 1],
                self.fields_view()[offset + 2],
                self.fields_view()[offset + 3],
            ),
    {
        proof {
            use_type_invariant(self);
        }
        if offset < self.fields.len() && self.fields.len() - offset >= 4 {
            let b0 = self.fields[offset] as u32;
            let b1 = self.fields[offset + 1] as u32;
            let b2 = self.fields[offset + 2] as u32;
            let b3 = self.fields[offset + 3] as u32;
            Some(b0 + 0x100 * b1 + 0x1_0000 * b2 + 0x100_0000 * b3)
        } else {
            None
        }
    }

    /// The string that the index byte at `offset` refers to: `None` where the
    /// declared length ends before the byte, else the resolved index.
    pub fn get_field_string(&self, offset: usize) -> (r: Option<Option<&'a [u8]>>)
        ensures
            r is None <==> !self.field_present(offset, 1),
            r matches Some(s) ==> opt_slice_view(s) == string_lookup(
                self.strings_view(),
                self.fields_view()[offset as int],
            ),
    {
        proof {
            use_type_invariant(self);
        }
        match self.get_field_byte(offset) {
            None => None,
            Some(index) => Some(self.get_string(index)),
        }
    }
}

} // verus!
