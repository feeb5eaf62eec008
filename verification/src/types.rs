use vstd::prelude::*;

verus! {

/// Outcome of a protocol call, generic over the transport's own error type.
///
/// Exactly one variant describes each failure: a completion echo that did not
/// match the expected word, a version-response magic word that did not match,
/// a payload too large for a single transfer, or a transport-level failure.
#[derive(Copy, Clone, Debug)]
pub enum R64DriveError<T> {
    InvalidCompletion(u32),
    InvalidMagic(u32),
    TransferTooLarge,
    NativeError(T),
}

/// An operation opcode, carried in the top byte of a command header word.
#[derive(Copy, Clone, Debug, PartialEq, Eq, Structural)]
pub enum Command {
    LoadFromPC,
    DumpToPC,
    SetSaveType,
    SetCICType,
    SetCIExtended,
    VersionRequest,
    Unexpected,
}

impl Command {
    /// The wire opcode of this command.
    pub open spec fn spec_opcode(self) -> u32 {
        match self {
            Command::LoadFromPC => 0x20,
            Command::DumpToPC => 0x30,
            Command::SetSaveType => 0x70,
            Command::SetCICType => 0x72,
            Command::SetCIExtended => 0x74,
            Command::VersionRequest => 0x80,
            Command::Unexpected => 0x81,
        }
    }

    #[verifier::when_used_as_spec(spec_opcode)]
    pub fn opcode(self) -> (r: u32)
        ensures
            r == self.spec_opcode(),
    {
        match self {
            Command::LoadFromPC => 0x20,
            Command::DumpToPC => 0x30,
            Command::SetSaveType => 0x70,
            Command::SetCICType => 0x72,
            Command::SetCIExtended => 0x74,
            Command::VersionRequest => 0x80,
            Command::Unexpected => 0x81,
        }
    }

    /// The command whose wire opcode is `v`; unknown opcodes map to `Unexpected`.
    pub open spec fn spec_from_u32(v: u32) -> Command {
        if v == 0x20 {
            Command::LoadFromPC
        } else if v == 0x30 {
            Command::DumpToPC
        } else if v == 0x70 {
            Command::SetSaveType
        } else if v == 0x72 {
            Command::SetCICType
        } else if v == 0x74 {
            Command::SetCIExtended
        } else if v == 0x80 {
            Command::VersionRequest
        } else {
            Command::Unexpected
        }
    }

    #[verifier::when_used_as_spec(spec_from_u32)]
    pub fn from_u32(v: u32) -> (r: Command)
        ensures
            r == Command::spec_from_u32(v),
    {
        if v == 0x20 {
            Command::LoadFromPC
        } else if v == 0x30 {
            Command::DumpToPC
        } else if v == 0x70 {
            Command::SetSaveType
        } else if v == 0x72 {
            Command::SetCICType
        } else if v == 0x74 {
            Command::SetCIExtended
        } else if v == 0x80 {
            Command::VersionRequest
        } else {
            Command::Unexpected
        }
    }
}

/// The kind of save memory the device should emulate.
#[derive(Copy, Clone, Debug)]
pub enum SaveType {
    NoSave,
    EEPROM4k,
    EEPROM16k,
    SRAM256k,
    FlashRAM1M,
    SRAM768k,
    FlashRAM1MPkmn,
}

impl SaveType {
    /// The single argument word that encodes this save type.
    pub open spec fn spec_code(self) -> u32 {
        match self {
            SaveType::NoSave => 0,
            SaveType::EEPROM4k => 1,
            SaveType::EEPROM16k => 2,
            SaveType::SRAM256k => 3,
            SaveType::FlashRAM1M => 4,
            SaveType::SRAM768k => 5,
            SaveType::FlashRAM1MPkmn => 6,
        }
    }

    #[verifier::when_used_as_spec(spec_code)]
    pub fn code(self) -> (r: u32)
        ensures
            r == self.spec_code(),
    {
        match self {
            SaveType::NoSave => 0,
            SaveType::EEPROM4k => 1,
            SaveType::EEPROM16k => 2,
            SaveType::SRAM256k => 3,
            SaveType::FlashRAM1M => 4,
            SaveType::SRAM768k => 5,
            SaveType::FlashRAM1MPkmn => 6,
        }
    }
}

/// The boot-ROM emulation kind the device should use.
#[derive(Copy, Clone, Debug)]
pub enum CICType {
    CIC6101,
    CIC6102,
    CIC7101,
    CIC7102,
    CIC6103_7103,
    CIC6105_7105,
    CIC6106_7106,
    CIC5101,
}

impl CICType {
    /// The argument word that encodes this CIC type (before the override bit).
    pub open spec fn spec_code(self) -> u32 {
        match self {
            CICType::CIC6101 => 0,
            CICType::CIC6102 => 1,
            CICType::CIC7101 => 2,
            CICType::CIC7102 => 3,
            CICType::CIC6103_7103 => 4,
            CICType::CIC6105_7105 => 5,
            CICType::CIC6106_7106 => 6,
            CICType::CIC5101 => 7,
        }
    }

    #[verifier::when_used_as_spec(spec_code)]
    pub fn code(self) -> (r: u32)
        ensures
            r == self.spec_code(),
    {
        match self {
            CICType::CIC6101 => 0,
            CICType::CIC6102 => 1,
            CICType::CIC7101 => 2,
            CICType::CIC7102 => 3,
            CICType::CIC6103_7103 => 4,
            CICType::CIC6105_7105 => 5,
            CICType::CIC6106_7106 => 6,
            CICType::CIC5101 => 7,
        }
    }
}

/// A target memory region on the device, packed into bits 24-31 of the
/// metadata word of a transfer command.
#[derive(Copy, Clone, Debug)]
pub enum BankIndex {
    Invalid,
    CartridgeROM,
    SRAM256k,
    SRAM768k,
    FlashRAM,
    FlashRAMPkmn,
    EEPROM,
}

impl BankIndex {
    /// The bank number that stands in the top byte of a metadata word.
    pub open spec fn spec_code(self) -> u32 {
        match self {
            BankIndex::Invalid => 0,
            BankIndex::CartridgeROM => 1,
            BankIndex::SRAM256k => 2,
            BankIndex::SRAM768k => 3,
            BankIndex::FlashRAM => 4,
            BankIndex::FlashRAMPkmn => 5,
            BankIndex::EEPROM => 6,
        }
    }

    #[verifier::when_used_as_spec(spec_code)]
    pub fn code(self) -> (r: u32)
        ensures
            r == self.spec_code(),
    {
        match self {
            BankIndex::Invalid => 0,
            BankIndex::CartridgeROM => 1,
            BankIndex::SRAM256k => 2,
            BankIndex::SRAM768k => 3,
            BankIndex::FlashRAM => 4,
            BankIndex::FlashRAMPkmn => 5,
            BankIndex::EEPROM => 6,
        }
    }
}

/// The device board revision, decoded from the high 16 bits of the first word
/// of a version response.
#[derive(Copy, Clone, Debug, PartialEq, Eq, Structural)]
pub enum HardwareVariant {
    RevA,
    RevB,
    Unexpected,
}

impl HardwareVariant {
    /// The variant whose identity code is `v`; unknown codes map to
    /// `Unexpected`, never to an error.
    pub open spec fn spec_from_u32(v: u32) -> HardwareVariant {
        if v == 0x4100 {
            HardwareVariant::RevA
        } else if v == 0x4200 {
            HardwareVariant::RevB
        } else {
            HardwareVariant::Unexpected
        }
    }

    #[verifier::when_used_as_spec(spec_from_u32)]
    pub fn from_u32(v: u32) -> (r: HardwareVariant)
        ensures
            r == HardwareVariant::spec_from_u32(v),
    {
        if v == 0x4100 {
            HardwareVariant::RevA
        } else if v == 0x4200 {
            HardwareVariant::RevB
        } else {
            HardwareVariant::Unexpected
        }
    }
}

/// The device firmware revision: one 16-bit value, read as
/// `major.minor = value/100 . value%100`, immutable once constructed.
#[derive(Copy, Clone, Debug, PartialEq, Eq, Structural)]
pub struct FirmwareVersion(u16);

impl FirmwareVersion {
    /// The raw 16-bit firmware value.
    pub closed spec fn spec_inner(self) -> u16 {
        self.0
    }

    pub fn new(v: u16) -> (r: FirmwareVersion)
        ensures
            r.spec_inner() == v,
    {
        FirmwareVersion(v)
    }

    pub fn into_inner(self) -> (r: u16)
        ensures
            r == self.spec_inner(),
    {
        self.0
    }
}

} // verus!
