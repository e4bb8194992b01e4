use vstd::prelude::*;

use crate::error::DecodeError;
use crate::parts::SMBiosStructParts;
use crate::table::{parts_match, walk_error, walk_spans, SMBiosData};

verus! {

/// The variant that a type discriminant selects: the type itself for the
/// structure kinds the standard defines (0 to 44, 126 and 127), `None` for
/// every other value.
pub open spec fn dispatch_code(t: u8) -> Option<u8> {
    if t <= 44 || t == 126 || t == 127 {
        Some(t)
    } else {
        None
    }
}

/// One structure of a table, tagged by its kind. Every variant holds the
/// structure's parts; a type that no variant names is `Unknown`, which still
/// gives access to the header, formatted area and strings.
#[derive(Debug)]
pub enum DefinedStruct<'a> {
    /// BIOS Information (Type 0)
    Information(SMBiosStructParts<'a>),
    /// System Information (Type 1)
    SystemInformation(SMBiosStructParts<'a>),
    /// Baseboard (or Module) Information (Type 2)
    BaseBoardInformation(SMBiosStructParts<'a>),
    /// System Enclosure or Chassis (Type 3)
    SystemChassisInformation(SMBiosStructParts<'a>),
    /// Processor Information (Type 4)
    ProcessorInformation(SMBiosStructParts<'a>),
    /// Memory Controller Information (Type 5, Obsolete)
    MemoryControllerInformation(SMBiosStructParts<'a>),
    /// Memory Module Information (Type 6, Obsolete)
    MemoryModuleInformation(SMBiosStructParts<'a>),
    /// Cache Informaiton (Type 7)
    CacheInformation(SMBiosStructParts<'a>),
    /// Port Connector Information (Type 8)
    PortConnectorInformation(SMBiosStructParts<'a>),
    /// System Slot Information (Type 9)
    SystemSlot(SMBiosStructParts<'a>),
    /// On Board Devices Information (Type 10, Obsolete)
    OnBoardDeviceInformation(SMBiosStructParts<'a>),
    /// OEM Strings (Type 11)
    OemStrings(SMBiosStructParts<'a>),
    /// System Configuration Options (Type 12)
    SystemConfigurationOptions(SMBiosStructParts<'a>),
    /// BIOS Language Information (Type 13)
    LanguageInformation(SMBiosStructParts<'a>),
    /// Group Associations (Type 14)
    GroupAssociations(SMBiosStructParts<'a>),
    /// System Event Log (Type 15)
    EventLog(SMBiosStructParts<'a>),
    /// Physical Memory Array (Type 16)
    PhysicalMemoryArray(SMBiosStructParts<'a>),
    /// Memory Device (Type 17)
    MemoryDevice(SMBiosStructParts<'a>),
    /// 32-Bit Memory Error Information (Type 18)
    MemoryErrorInformation32Bit(SMBiosStructParts<'a>),
    /// Memory Array Mapped Address (Type 19)
    MemoryArrayMappedAddress(SMBiosStructParts<'a>),
    /// Memory Device Mapped Address (Type 20)
    MemoryDeviceMappedAddress(SMBiosStructParts<'a>),
    /// Built-in Pointing Device (Type 21)
    BuiltInPointingDevice(SMBiosStructParts<'a>),
    /// Portable Battery (Type 22)
    PortableBattery(SMBiosStructParts<'a>),
    /// System Reset (Type 23)
    SystemReset(SMBiosStructParts<'a>),
    /// Hardware Security (Type 24)
    HardwareSecurity(SMBiosStructParts<'a>),
    /// System Power Controls (Type 25)
    SystemPowerControls(SMBiosStructParts<'a>),
    /// Voltage Probe (Type 26)
    VoltageProbe(SMBiosStructParts<'a>),
    /// Cooling Device (Type 27)
    CoolingDevice(SMBiosStructParts<'a>),
    /// Temperature Probe (Type 28)
    TemperatureProbe(SMBiosStructParts<'a>),
    /// Electrical Current Probe (Type 29)
    ElectricalCurrentProbe(SMBiosStructParts<'a>),
    /// Out-of-Band Remote Access (Type 30)
    OutOfBandRemoteAccess(SMBiosStructParts<'a>),
    /// Boot Integrity Services (BIS) (Type 31)
    BisEntryPoint(SMBiosStructParts<'a>),
    /// System Boot Information (Type 32)
    SystemBootInformation(SMBiosStructParts<'a>),
    /// 64-Bit Memory Error Information (Type 33)
    MemoryErrorInformation64Bit(SMBiosStructParts<'a>),
    /// Management Device (Type 34)
    ManagementDevice(SMBiosStructParts<'a>),
    /// Management Device Component (Type 35)
    ManagementDeviceComponent(SMBiosStructParts<'a>),
    /// Management Device Threshold Data (Type 36)
    ManagementDeviceThresholdData(SMBiosStructParts<'a>),
    /// Memory Channel (Type 37)
    MemoryChannel(SMBiosStructParts<'a>),
    /// IPMI Device Information (Type 38)
    IpmiDeviceInformation(SMBiosStructParts<'a>),
    /// Power Supply (Type 39)
    SystemPowerSupply(SMBiosStructParts<'a>),
    /// Additional Information (Type 40)
    AdditionalInformation(SMBiosStructParts<'a>),
    /// Onboard Devices Extended Information (Type 41)
    OnboardDevicesExtendedInformation(SMBiosStructParts<'a>),
    /// Management Controller Host Interface (Type 42)
    ManagementControllerHostInterface(SMBiosStructParts<'a>),
    /// TPM Device (Type 43)
    TpmDevice(SMBiosStructParts<'a>),
    /// Processor Additional Information (Type 44)
    ProcessorAdditionalInformation(SMBiosStructParts<'a>),
    /// Inactive (Type 126)
    Inactive(SMBiosStructParts<'a>),
    /// End-of-Table (Type 127)
    EndOfTable(SMBiosStructParts<'a>),
    /// An OEM-defined structure, or one of a type that the standard defined
    /// after the types this library knows.
    Unknown(SMBiosStructParts<'a>),
}

impl<'a> DefinedStruct<'a> {
    /// The structure's parts, whatever its variant.
    pub open spec fn parts_spec(&self) -> SMBiosStructParts<'a> {
        match self {
            DefinedStruct::Information(p) => *p,
            DefinedStruct::SystemInformation(p) => *p,
            DefinedStruct::BaseBoardInformation(p) => *p,
            DefinedStruct::SystemChassisInformation(p) => *p,
            DefinedStruct::ProcessorInformation(p) => *p,
            DefinedStruct::MemoryControllerInformation(p) => *p,
            DefinedStruct::MemoryModuleInformation(p) => *p,
            DefinedStruct::CacheInformation(p) => *p,
            DefinedStruct::PortConnectorInformation(p) => *p,
            DefinedStruct::SystemSlot(p) => *p,
            DefinedStruct::OnBoardDeviceInformation(p) => *p,
            DefinedStruct::OemStrings(p) => *p,
            DefinedStruct::SystemConfigurationOptions(p) => *p,
            DefinedStruct::LanguageInformation(p) => *p,
            DefinedStruct::GroupAssociations(p) => *p,
            DefinedStruct::EventLog(p) => *p,
            DefinedStruct::PhysicalMemoryArray(p) => *p,
            DefinedStruct::MemoryDevice(p) => *p,
            DefinedStruct::MemoryErrorInformation32Bit(p) => *p,
            DefinedStruct::MemoryArrayMappedAddress(p) => *p,
            DefinedStruct::MemoryDeviceMappedAddress(p) => *p,
            DefinedStruct::BuiltInPointingDevice(p) => *p,
            DefinedStruct::PortableBattery(p) => *p,
            DefinedStruct::SystemReset(p) => *p,
            DefinedStruct::HardwareSecurity(p) => *p,
            DefinedStruct::SystemPowerControls(p) => *p,
            DefinedStruct::VoltageProbe(p) => *p,
            DefinedStruct::CoolingDevice(p) => *p,
            DefinedStruct::TemperatureProbe(p) => *p,
            DefinedStruct::ElectricalCurrentProbe(p) => *p,
            DefinedStruct::OutOfBandRemoteAccess(p) => *p,
            DefinedStruct::BisEntryPoint(p) => *p,
            DefinedStruct::SystemBootInformation(p) => *p,
            DefinedStruct::MemoryErrorInformation64Bit(p) => *p,
            DefinedStruct::ManagementDevice(p) => *p,
            DefinedStruct::ManagementDeviceComponent(p) => *p,
            DefinedStruct::ManagementDeviceThresholdData(p) => *p,
            DefinedStruct::MemoryChannel(p) => *p,
            DefinedStruct::IpmiDeviceInformation(p) => *p,
            DefinedStruct::SystemPowerSupply(p) => *p,
            DefinedStruct::AdditionalInformation(p) => *p,
            DefinedStruct::OnboardDevicesExtendedInformation(p) => *p,
            DefinedStruct::ManagementControllerHostInterface(p) => *p,
            DefinedStruct::TpmDevice(p) => *p,
            DefinedStruct::ProcessorAdditionalInformation(p) => *p,
            DefinedStruct::Inactive(p) => *p,
            DefinedStruct::EndOfTable(p) => *p,
            DefinedStruct::Unknown(p) => *p,
        }
    }

    /// The structure type that the variant stands for, `None` for `Unknown`.
    pub open spec fn type_code(&self) -> Option<u8> {
        match self {
            DefinedStruct::Information(_) => Some(0u8),
            DefinedStruct::SystemInformation(_) => Some(1u8),
            DefinedStruct::BaseBoardInformation(_) => Some(2u8),
            DefinedStruct::SystemChassisInformation(_) => Some(3u8),
            DefinedStruct::ProcessorInformation(_) => Some(4u8),
            DefinedStruct::MemoryControllerInformation(_) => Some(5u8),
            DefinedStruct::MemoryModuleInformation(_) => Some(6u8),
            DefinedStruct::CacheInformation(_) => Some(7u8),
            DefinedStruct::PortConnectorInformation(_) => Some(8u8),
            DefinedStruct::SystemSlot(_) => Some(9u8),
            DefinedStruct::OnBoardDeviceInformation(_) => Some(10u8),
            DefinedStruct::OemStrings(_) => Some(11u8),
            DefinedStruct::SystemConfigurationOptions(_) => Some(12u8),
            DefinedStruct::LanguageInformation(_) => Some(13u8),
            DefinedStruct::GroupAssociations(_) => Some(14u8),
            DefinedStruct::EventLog(_) => Some(15u8),
            DefinedStruct::PhysicalMemoryArray(_) => Some(16u8),
            DefinedStruct::MemoryDevice(_) => Some(17u8),
            DefinedStruct::MemoryErrorInformation32Bit(_) => Some(18u8),
            DefinedStruct::MemoryArrayMappedAddress(_) => Some(19u8),
            DefinedStruct::MemoryDeviceMappedAddress(_) => Some(20u8),
            DefinedStruct::BuiltInPointingDevice(_) => Some(21u8),
            DefinedStruct::PortableBattery(_) => Some(22u8),
            DefinedStruct::SystemReset(_) => Some(23u8),
            DefinedStruct::HardwareSecurity(_) => Some(24u8),
            DefinedStruct::SystemPowerControls(_) => Some(25u8),
            DefinedStruct::VoltageProbe(_) => Some(26u8),
            DefinedStruct::CoolingDevice(_) => Some(27u8),
            DefinedStruct::TemperatureProbe(_) => Some(28u8),
            DefinedStruct::ElectricalCurrentProbe(_) => Some(29u8),
            DefinedStruct::OutOfBandRemoteAccess(_) => Some(30u8),
            DefinedStruct::BisEntryPoint(_) => Some(31u8),
            DefinedStruct::SystemBootInformation(_) => Some(32u8),
            DefinedStruct::MemoryErrorInformation64Bit(_) => Some(33u8),
            DefinedStruct::ManagementDevice(_) => Some(34u8),
            DefinedStruct::ManagementDeviceComponent(_) => Some(35u8),
            DefinedStruct::ManagementDeviceThresholdData(_) => Some(36u8),
            DefinedStruct::MemoryChannel(_) => Some(37u8),
            DefinedStruct::IpmiDeviceInformation(_) => Some(38u8),
            DefinedStruct::SystemPowerSupply(_) => Some(39u8),
            DefinedStruct::AdditionalInformation(_) => Some(40u8),
            DefinedStruct::OnboardDevicesExtendedInformation(_) => Some(41u8),
            DefinedStruct::ManagementControllerHostInterface(_) => Some(42u8),
            DefinedStruct::TpmDevice(_) => Some(43u8),
            DefinedStruct::ProcessorAdditionalInformation(_) => Some(44u8),
            DefinedStruct::Inactive(_) => Some(126u8),
            DefinedStruct::EndOfTable(_) => Some(127u8),
            DefinedStruct::Unknown(_) => None,
        }
    }

    /// The structure's type discriminant, as its header gives it.
    pub open spec fn struct_type_spec(&self) -> u8 {
        self.parts_spec().header_view().struct_type
    }

    /// The structure's handle, as its header gives it.
    pub open spec fn handle_spec(&self) -> u16 {
        self.parts_spec().header_view().handle
    }

    /// Wraps a structure in the variant that its type discriminant selects.
    /// Every discriminant selects exactly one variant.
    pub fn from_parts(parts: SMBiosStructParts<'a>) -> (r: DefinedStruct<'a>)
        ensures
            r.parts_spec() == parts,
            r.type_code() == dispatch_code(parts.header_view().struct_type),
    {
        match parts.header().struct_type {
            0 => DefinedStruct::Information(parts),
            1 => DefinedStruct::SystemInformation(parts),
            2 => DefinedStruct::BaseBoardInformation(parts),
            3 => DefinedStruct::SystemChassisInformation(parts),
            4 => DefinedStruct::ProcessorInformation(parts),
            5 => DefinedStruct::MemoryControllerInformation(parts),
            6 => DefinedStruct::MemoryModuleInformation(parts),
            7 => DefinedStruct::CacheInformation(parts),
            8 => DefinedStruct::PortConnectorInformation(parts),
            9 => DefinedStruct::SystemSlot(parts),
            10 => DefinedStruct::OnBoardDeviceInformation(parts),
            11 => DefinedStruct::OemStrings(parts),
            12 => DefinedStruct::SystemConfigurationOptions(parts),
            13 => DefinedStruct::LanguageInformation(parts),
            14 => DefinedStruct::GroupAssociations(parts),
            15 => DefinedStruct::EventLog(parts),
            16 => DefinedStruct::PhysicalMemoryArray(parts),
            17 => DefinedStruct::MemoryDevice(parts),
            18 => DefinedStruct::MemoryErrorInformation32Bit(parts),
            19 => DefinedStruct::MemoryArrayMappedAddress(parts),
            20 => DefinedStruct::MemoryDeviceMappedAddress(parts),
            21 => DefinedStruct::BuiltInPointingDevice(parts),
            22 => DefinedStruct::PortableBattery(parts),
            23 => DefinedStruct::SystemReset(parts),
            24 => DefinedStruct::HardwareSecurity(parts),
            25 => DefinedStruct::SystemPowerControls(parts),
            26 => DefinedStruct::VoltageProbe(parts),
            27 => DefinedStruct::CoolingDevice(parts),
            28 => DefinedStruct::TemperatureProbe(parts),
            29 => DefinedStruct::ElectricalCurrentProbe(parts),
            30 => DefinedStruct::OutOfBandRemoteAccess(parts),
            31 => DefinedStruct::BisEntryPoint(parts),
            32 => DefinedStruct::SystemBootInformation(parts),
            33 => DefinedStruct::MemoryErrorInformation64Bit(parts),
            34 => DefinedStruct::ManagementDevice(parts),
            35 => DefinedStruct::ManagementDeviceComponent(parts),
            36 => DefinedStruct::ManagementDeviceThresholdData(parts),
            37 => DefinedStruct::MemoryChannel(parts),
            38 => DefinedStruct::IpmiDeviceInformation(parts),
            39 => DefinedStruct::SystemPowerSupply(parts),
            40 => DefinedStruct::AdditionalInformation(parts),
            41 => DefinedStruct::OnboardDevicesExtendedInformation(parts),
            42 => DefinedStruct::ManagementControllerHostInterface(parts),
            43 => DefinedStruct::TpmDevice(parts),
            44 => DefinedStruct::ProcessorAdditionalInformation(parts),
            126 => DefinedStruct::Inactive(parts),
            127 => DefinedStruct::EndOfTable(parts),
            _ => DefinedStruct::Unknown(parts),
        }
    }

    /// The structure's parts, whatever its variant.
    pub fn parts(&self) -> (r: &SMBiosStructParts<'a>)
        ensures
            *r == self.parts_spec(),
    {
        match self {
            DefinedStruct::Information(p) => p,
            DefinedStruct::SystemInformation(p) => p,
            DefinedStruct::BaseBoardInformation(p) => p,
            DefinedStruct::SystemChassisInformation(p) => p,
            DefinedStruct::ProcessorInformation(p) => p,
            DefinedStruct::MemoryControllerInformation(p) => p,
            DefinedStruct::MemoryModuleInformation(p) => p,
            DefinedStruct::CacheInformation(p) => p,
            DefinedStruct::PortConnectorInformation(p) => p,
            DefinedStruct::SystemSlot(p) => p,
            DefinedStruct::OnBoardDeviceInformation(p) => p,
            DefinedStruct::OemStrings(p) => p,
            DefinedStruct::SystemConfigurationOptions(p) => p,
            DefinedStruct::LanguageInformation(p) => p,
            DefinedStruct::GroupAssociations(p) => p,
            DefinedStruct::EventLog(p) => p,
            DefinedStruct::PhysicalMemoryArray(p) => p,
            DefinedStruct::MemoryDevice(p) => p,
            DefinedStruct::MemoryErrorInformation32Bit(p) => p,
            DefinedStruct::MemoryArrayMappedAddress(p) => p,
            DefinedStruct::MemoryDeviceMappedAddress(p) => p,
            DefinedStruct::BuiltInPointingDevice(p) => p,
            DefinedStruct::PortableBattery(p) => p,
            DefinedStruct::SystemReset(p) => p,
            DefinedStruct::HardwareSecurity(p) => p,
            DefinedStruct::SystemPowerControls(p) => p,
            DefinedStruct::VoltageProbe(p) => p,
            DefinedStruct::CoolingDevice(p) => p,
            DefinedStruct::TemperatureProbe(p) => p,
            DefinedStruct::ElectricalCurrentProbe(p) => p,
            DefinedStruct::OutOfBandRemoteAccess(p) => p,
            DefinedStruct::BisEntryPoint(p) => p,
            DefinedStruct::SystemBootInformation(p) => p,
            DefinedStruct::MemoryErrorInformation64Bit(p) => p,
            DefinedStruct::ManagementDevice(p) => p,
            DefinedStruct::ManagementDeviceComponent(p) => p,
            DefinedStruct::ManagementDeviceThresholdData(p) => p,
            DefinedStruct::MemoryChannel(p) => p,
            DefinedStruct::IpmiDeviceInformation(p) => p,
            DefinedStruct::SystemPowerSupply(p) => p,
            DefinedStruct::AdditionalInformation(p) => p,
            DefinedStruct::OnboardDevicesExtendedInformation(p) => p,
            DefinedStruct::ManagementControllerHostInterface(p) => p,
            DefinedStruct::TpmDevice(p) => p,
            DefinedStruct::ProcessorAdditionalInformation(p) => p,
            DefinedStruct::Inactive(p) => p,
            DefinedStruct::EndOfTable(p) => p,
            DefinedStruct::Unknown(p) => p,
        }
    }

    /// The structure's type discriminant.
    pub fn struct_type(&self) -> (r: u8)
        ensures
            r == self.struct_type_spec(),
    {
        self.parts().header().struct_type
    }

    /// The structure's handle.
    pub fn handle(&self) -> (r: u16)
        ensures
            r == self.handle_spec(),
    {
        self.parts().header().handle
    }
}

/// The structures decoded from one table, in table order.
#[derive(Debug)]
pub struct DefinedStructTable<'a>(Vec<DefinedStruct<'a>>);

impl<'a> View for DefinedStructTable<'a> {
    type V = Seq<DefinedStruct<'a>>;

    closed spec fn view(&self) -> Seq<DefinedStruct<'a>> {
        self.0@
    }
}

impl<'a> DefinedStructTable<'a> {
    /// An empty collection.
    pub fn new() -> (r: DefinedStructTable<'a>)
        ensures
            r@ == Seq::<DefinedStruct<'a>>::empty(),
    {
        DefinedStructTable(Vec::new())
    }

    /// Appends a structure at the end.
    pub fn add(&mut self, elem: DefinedStruct<'a>)
        ensures
            final(self)@ == old(self)@.push(elem),
    {
        self.0.push(elem);
    }

    /// Dispatches each structure to its variant, keeping their order.
    pub fn from_parts(parts: Vec<SMBiosStructParts<'a>>) -> (r: DefinedStructTable<'a>)
        ensures
            r@.len() == parts@.len(),
            forall|i: int|
                0 <= i < parts@.len() ==> (#[trigger] r@[i]).parts_spec() == parts@[i]
                    && r@[i].type_code() == dispatch_code(parts@[i].header_view().struct_type),
    {
        let ghost all = parts@;
        let mut parts = parts;
        let mut reversed: Vec<DefinedStruct<'a>> = Vec::new();
        while parts.len() > 0
            invariant
                parts@ == all.subrange(0, parts@.len() as int),
                reversed@.len() + parts@.len() == all.len(),
                forall|k: int|
                    0 <= k < reversed@.len() ==> (#[trigger] reversed@[k]).parts_spec() == all[all.len()
                        - 1 - k] && reversed@[k].type_code() == dispatch_code(
                        all[all.len() - 1 - k].header_view().struct_type,
                    ),
            decreases parts@.len(),
        {
            let p = parts.pop().unwrap();
            reversed.push(DefinedStruct::from_parts(p));
            assert(parts@ =~= all.subrange(0, parts@.len() as int));
        }
        let mut table = DefinedStructTable::new();
        while reversed.len() > 0
            invariant
                reversed@.len() + table@.len() == all.len(),
                forall|k: int|
                    0 <= k < reversed@.len() ==> (#[trigger] reversed@[k]).parts_spec() == all[all.len()
                        - 1 - k] && reversed@[k].type_code() == dispatch_code(
                        all[all.len() - 1 - k].header_view().struct_type,
                    ),
                forall|i: int|
                    0 <= i < table@.len() ==> (#[trigger] table@[i]).parts_spec() == all[i]
                        && table@[i].type_code() == dispatch_code(all[i].header_view().struct_type),
            decreases reversed@.len(),
        {
            let d = reversed.pop().unwrap();
            table.add(d);
        }
        table
    }

    /// The number of structures.
    pub fn len(&self) -> (r: usize)
        ensures
            r == self@.len(),
    {
        self.0.len()
    }

    /// The structure at position `i`.
    pub fn get(&self, i: usize) -> (r: Option<&DefinedStruct<'a>>)
        ensures
            i < self@.len() ==> r == Some(&self@[i as int]),
            i >= self@.len() ==> r is None,
    {
        if i < self.0.len() {
            Some(&self.0[i])
        } else {
            None
        }
    }

    /// The position of the first structure with handle `handle`, if any.
    /// Handles are meant to be unique, but a table may repeat one.
    pub fn find_by_handle(&self, handle: u16) -> (r: Option<usize>)
        ensures
            r matches Some(i) ==> i < self@.len() && self@[i as int].handle_spec() == handle,
            r matches Some(i) ==> forall|j: int| 0 <= j < i ==> (#[trigger] self@[j]).handle_spec() != handle,
            r is None ==> forall|j: int| 0 <= j < self@.len() ==> (#[trigger] self@[j]).handle_spec() != handle,
    {
        let mut i: usize = 0;
        while i < self.0.len()
            invariant
                i <= self@.len(),
                forall|j: int| 0 <= j < i ==> (#[trigger] self@[j]).handle_spec() != handle,
            decreases self@.len() - i,
        {
            if self.0[i].handle() == handle {
                return Some(i);
            }
            i = i + 1;
        }
        None
    }

    /// The positions of the structures of type `struct_type`, in table order.
    pub fn find_by_type(&self, struct_type: u8) -> (r: Vec<usize>)
        ensures
            forall|k: int|
                0 <= k < r@.len() ==> #[trigger] r@[k] < self@.len() && self@[r@[k] as int].struct_type_spec()
                    == struct_type,
            forall|k: int| 0 <= k < r@.len() - 1 ==> #[trigger] r@[k] < r@[k + 1],
            forall|j: int|
                0 <= j < self@.len() && (#[trigger] self@[j]).struct_type_spec() == struct_type
                    ==> exists|k: int| 0 <= k < r@.len() && r@[k] == j,
    {
        let mut out: Vec<usize> = Vec::new();
        let mut i: usize = 0;
        while i < self.0.len()
            invariant
                i <= self@.len(),
                forall|k: int|
                    0 <= k < out@.len() ==> #[trigger] out@[k] < i && self@[out@[k] as int].struct_type_spec()
                        == struct_type,
                forall|k: int| 0 <= k < out@.len() - 1 ==> #[trigger] out@[k] < out@[k + 1],
                forall|j: int|
                    0 <= j < i && (#[trigger] self@[j]).struct_type_spec() == struct_type
                        ==> exists|k: int| 0 <= k < out@.len() && out@[k] == j,
            decreases self@.len() - i,
        {
            let ty = self.0[i].struct_type();
            assert(ty == self@[i as int].struct_type_spec());
            let ghost old_out = out@;
            if ty == struct_type {
                out.push(i);
            }
            assert forall|j: int|
                0 <= j < i + 1 && (#[trigger] self@[j]).struct_type_spec() == struct_type implies exists|
                    k: int,
                | 0 <= k < out@.len() && out@[k] == j by {
                if j < i {
                    let k = choose|k: int| 0 <= k < old_out.len() && old_out[k] == j;
                    assert(out@[k] == j);
                } else {
                    assert(out@[out@.len() - 1] == j);
                }
            }
            i = i + 1;
        }
        out
    }
}

impl SMBiosData {
    /// Walks the table and dispatches each structure to its variant. The
    /// collection keeps table order; a malformed structure ends it, and the
    /// error says where.
    pub fn decode(&self) -> (r: (DefinedStructTable<'_>, Option<DecodeError>))
        ensures
            r.0@.len() == walk_spans(self.table_view()).len(),
            forall|i: int|
                0 <= i < r.0@.len() ==> parts_match(
                    (#[trigger] r.0@[i]).parts_spec(),
                    self.table_view(),
                    walk_spans(self.table_view())[i],
                ) && r.0@[i].type_code() == dispatch_code(r.0@[i].struct_type_spec())
                    && r.0@[i].parts_spec().version_view() == self.version_view(),
            r.1 == walk_error(self.table_view()),
    {
        let walk = self.walk();
        let error = walk.error;
        let table = DefinedStructTable::from_parts(walk.structs);
        (table, error)
    }
}

} // verus!
