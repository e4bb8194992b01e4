use vstd::prelude::*;

use crate::table::{SMBiosData, SMBiosVersion};

verus! {

/// The little-endian value of four bytes.
pub open spec fn u32_le(b0: u8, b1: u8, b2: u8, b3: u8) -> int {
    b0 as int + 0x100 * b1 as int + 0x1_0000 * b2 as int + 0x100_0000 * b3 as int
}

/// The payload length that an envelope's header declares.
pub open spec fn declared_length(raw: Seq<u8>) -> int
    recommends
        raw.len() >= 8,
{
    u32_le(raw[4], raw[5], raw[6], raw[7])
}

/// An envelope is valid when it is longer than its header and the declared
/// payload length is exactly what follows the header.
pub open spec fn is_valid_envelope(raw: Seq<u8>) -> bool {
    raw.len() > 8 && declared_length(raw) == raw.len() - 8
}

/// A raw SMBIOS table as Windows hands it out: an 8-byte header with the
/// version and payload length, followed by the structure table itself.
#[derive(Debug)]
pub struct WinSMBiosData {
    windows_header: Vec<u8>,
    smbios_data: SMBiosData,
}

impl WinSMBiosData {
    /// Offset of the Used20CallingMethod field.
    pub const USED20_CALLING_METHOD_OFFSET: usize = 0usize;

    /// Offset of the SMBIOSMajorVersion field.
    pub const SMBIOS_MAJOR_VERSION_OFFSET: usize = 1usize;

    /// Offset of the SMBIOSMinorVersion field.
    pub const SMBIOS_MINOR_VERSION_OFFSET: usize = 2usize;

    /// Offset of the DMIRevision field.
    pub const DMI_REVISION_OFFSET: usize = 3usize;

    /// Offset of the Length field.
    pub const TABLE_DATA_LENGTH_OFFSET: usize = 4usize;

    /// Offset of the SMBIOSTableData field.
    pub const SMBIOS_TABLE_DATA_OFFSET: usize = 8usize;

    /// The 8 header bytes.
    pub closed spec fn header_view(&self) -> Seq<u8> {
        self.windows_header@
    }

    /// The bytes of the structure table after the header.
    pub closed spec fn payload_view(&self) -> Seq<u8> {
        self.smbios_data.table_view()
    }

    /// The version that the structure table carries.
    pub closed spec fn version_reported(&self) -> Option<SMBiosVersion> {
        self.smbios_data.version_view()
    }

    /// The header holds 8 bytes, and the table that follows has the length it declares.
    #[verifier::type_invariant]
    spec fn wf(&self) -> bool {
        &&& self.header_view().len() == 8
        &&& is_valid_envelope(self.header_view() + self.smbios_data.table_view())
        &&& self.smbios_data.version_view() == Some(version_of_header(self.header_view()))
    }

    /// Splits a raw envelope into its header and the structure table, with the
    /// version that the header reports; a malformed envelope is refused.
    pub fn new(raw_smbios_data: Vec<u8>) -> (r: Result<WinSMBiosData, crate::DecodeError>)
        ensures
            is_valid_envelope(raw_smbios_data@) <==> r is Ok,
            r is Err ==> r == Err::<WinSMBiosData, crate::DecodeError>(
                crate::DecodeError::MalformedEnvelope,
            ),
            r matches Ok(w) ==> {
                &&& w.header_view() == raw_smbios_data@.subrange(0, 8)
                &&& w.payload_view() == raw_smbios_data@.subrange(
                    8,
                    raw_smbios_data@.len() as int,
                )
                &&& w.version_reported() == Some(version_of_header(raw_smbios_data@))
            },
    {
        if !WinSMBiosData::is_valid_win_smbios_data(&raw_smbios_data) {
            Err(crate::DecodeError::MalformedEnvelope)
        } else {
            let mut windows_header: Vec<u8> = Vec::new();
            let mut table: Vec<u8> = Vec::new();
            let n = raw_smbios_data.len();
            let mut i: usize = 0;
            while i < n
                invariant
                    n == raw_smbios_data@.len(),
                    i <= n,
                    i <= 8 ==> windows_header@ == raw_smbios_data@.subrange(0, i as int),
                    i <= 8 ==> table@.len() == 0,
                    i > 8 ==> windows_header@ == raw_smbios_data@.subrange(0, 8),
                    i > 8 ==> table@ == raw_smbios_data@.subrange(8, i as int),
                decreases n - i,
            {
                if i < WinSMBiosData::SMBIOS_TABLE_DATA_OFFSET {
                    windows_header.push(raw_smbios_data[i]);
                } else {
                    table.push(raw_smbios_data[i]);
                }
                i = i + 1;
                assert(i <= 8 ==> windows_header@ =~= raw_smbios_data@.subrange(0, i as int));
                assert(i > 8 ==> table@ =~= raw_smbios_data@.subrange(8, i as int));
            }
            assert(windows_header@ + table@ =~= raw_smbios_data@);
            let version = WinSMBiosData::version_from_raw_header(&windows_header);
            Ok(WinSMBiosData {
                windows_header,
                smbios_data: SMBiosData::from_vec_and_version(table, Some(version)),
            })
        }
    }

    /// Whether a block of data is a well-formed envelope. Only the envelope
    /// itself is checked, not the structure table inside it.
    pub fn is_valid_win_smbios_data(raw_data: &Vec<u8>) -> (r: bool)
        ensures
            r == is_valid_envelope(raw_data@),
    {
        let length = raw_data.len();
        if length <= WinSMBiosData::SMBIOS_TABLE_DATA_OFFSET {
            return false;
        }
        let table_data_length = le_u32_at(raw_data.as_slice(), WinSMBiosData::TABLE_DATA_LENGTH_OFFSET);
        table_data_length as u64 == (length - WinSMBiosData::SMBIOS_TABLE_DATA_OFFSET) as u64
    }

    /// The 8 header bytes of the envelope.
    pub fn raw_smbios_data(&self) -> (r: &[u8])
        ensures
            r@ == self.header_view(),
            r@.len() == 8,
    {
        proof {
            use_type_invariant(self);
        }
        self.windows_header.as_slice()
    }

    /// The structure table that follows the header.
    pub fn smbios_data(&self) -> (r: &SMBiosData)
        ensures
            r.table_view() == self.payload_view(),
            r.version_view() == self.version_reported(),
    {
        &self.smbios_data
    }

    /// The Used20CallingMethod byte.
    pub fn used20_calling_method(&self) -> (r: u8)
        ensures
            r == self.header_view()[0],
    {
        proof {
            use_type_invariant(self);
        }
        self.windows_header[WinSMBiosData::USED20_CALLING_METHOD_OFFSET]
    }

    /// The SMBIOS major version.
    pub fn smbios_major_version(&self) -> (r: u8)
        ensures
            r == self.header_view()[1],
    {
        proof {
            use_type_invariant(self);
        }
        self.windows_header[WinSMBiosData::SMBIOS_MAJOR_VERSION_OFFSET]
    }

    /// The SMBIOS minor version.
    pub fn smbios_minor_version(&self) -> (r: u8)
        ensures
            r == self.header_view()[2],
    {
        proof {
            use_type_invariant(self);
        }
        self.windows_header[WinSMBiosData::SMBIOS_MINOR_VERSION_OFFSET]
    }

    /// The DMI revision.
    pub fn dmi_revision(&self) -> (r: u8)
        ensures
            r == self.header_view()[3],
    {
        proof {
            use_type_invariant(self);
        }
        self.windows_header[WinSMBiosData::DMI_REVISION_OFFSET]
    }

    fn version_from_raw_header(windows_header: &Vec<u8>) -> (r: SMBiosVersion)
        requires
            windows_header@.len() >= 4,
        ensures
            r == version_of_header(windows_header@),
    {
        SMBiosVersion {
            major: windows_header[WinSMBiosData::SMBIOS_MAJOR_VERSION_OFFSET],
            minor: windows_header[WinSMBiosData::SMBIOS_MINOR_VERSION_OFFSET],
            revision: windows_header[WinSMBiosData::DMI_REVISION_OFFSET],
        }
    }

    /// The payload length declared in the header; for a well-formed envelope
    /// it is the length of the structure table.
    pub fn table_data_length(&self) -> (r: u32)
        ensures
            r == declared_length(self.header_view()),
            r == self.payload_view().len(),
    {
        proof {
            use_type_invariant(self);
        }
        let r = le_u32_at(self.windows_header.as_slice(), WinSMBiosData::TABLE_DATA_LENGTH_OFFSET);
        assert((self.header_view() + self.smbios_data.table_view()).subrange(0, 8) =~= self.header_view());
        r
    }
}

/// The version that an envelope header reports.
pub open spec fn version_of_header(header: Seq<u8>) -> SMBiosVersion {
    SMBiosVersion { major: header[1], minor: header[2], revision: header[3] }
}

/// Reads a little-endian `u32` at `at`.
fn le_u32_at(b: &[u8], at: usize) -> (r: u32)
    requires
        at + 4 <= b@.len(),
    ensures
        r == u32_le(b@[at as int], b@[at + 1], b@[at + 2], b@[at + 3]),
{
    let b0 = b[at] as u32;
    let b1 = b[at + 1] as u32;
    let b2 = b[at + 2] as u32;
    let b3 = b[at + 3] as u32;
    b0 + 0x100 * b1 + 0x1_0000 * b2 + 0x100_0000 * b3
}

} // verus!
