//! The ELF file header: identification bytes, object kind, machine and the
//! table locations, decoded in the byte order the identification selects.

use vstd::prelude::*;
use crate::bytes::{endian_value, lemma_value_bounds, read_u16, read_u32, read_u64};
use crate::error::DebugError;

verus! {

pub type ElfMagic = [u8; 4];

pub type ElfVersion = u8;

pub type AbiVersion = u8;

pub type ExVersion = u32;

pub type ElfFlags = u32;

/// Word size of the object file (`EI_CLASS`).
#[derive(PartialEq, Eq, Structural, Clone, Copy, Debug)]
pub enum ElfFormat {
    Arch32,
    Arch64,
}

impl ElfFormat {
    /// The number that stands for this variant in an ELF header.
    pub open spec fn code(self) -> u8 {
        match self {
            ElfFormat::Arch32 => 1,
            ElfFormat::Arch64 => 2,
        }
    }

    /// The number that stands for this variant in an ELF header.
    pub fn to_primitive(&self) -> (number: u8)
        ensures
            number == self.code(),
    {
        match self {
            ElfFormat::Arch32 => 1,
            ElfFormat::Arch64 => 2,
        }
    }

    /// Whether `number` stands for a variant.
    pub open spec fn known(number: u8) -> bool {
        exists|v: ElfFormat| v.code() == number
    }

    /// No two variants stand for the same number.
    pub proof fn lemma_code_is_injective(a: ElfFormat, b: ElfFormat)
        requires
            a.code() == b.code(),
        ensures
            a == b,
    {
    }

    /// The variant that `number` stands for, if there is one.
    pub fn try_from_primitive(number: u8) -> (variant: Option<Self>)
        ensures
            variant matches Some(v) ==> v.code() == number,
            variant is None ==> !Self::known(number),
    {
        match number {
            1 => Some(ElfFormat::Arch32),
            2 => Some(ElfFormat::Arch64),
            _ => None,
        }
    }
}

/// Byte order of the object file (`EI_DATA`).
#[derive(PartialEq, Eq, Structural, Clone, Copy, Debug)]
pub enum ElfEndianness {
    Little,
    Big,
}

impl ElfEndianness {
    /// The number that stands for this variant in an ELF header.
    pub open spec fn code(self) -> u8 {
        match self {
            ElfEndianness::Little => 1,
            ElfEndianness::Big => 2,
        }
    }

    /// The number that stands for this variant in an ELF header.
    pub fn to_primitive(&self) -> (number: u8)
        ensures
            number == self.code(),
    {
        match self {
            ElfEndianness::Little => 1,
            ElfEndianness::Big => 2,
        }
    }

    /// Whether `number` stands for a variant.
    pub open spec fn known(number: u8) -> bool {
        exists|v: ElfEndianness| v.code() == number
    }

    /// No two variants stand for the same number.
    pub proof fn lemma_code_is_injective(a: ElfEndianness, b: ElfEndianness)
        requires
            a.code() == b.code(),
        ensures
            a == b,
    {
    }

    /// The variant that `number` stands for, if there is one.
    pub fn try_from_primitive(number: u8) -> (variant: Option<Self>)
        ensures
            variant matches Some(v) ==> v.code() == number,
            variant is None ==> !Self::known(number),
    {
        match number {
            1 => Some(ElfEndianness::Little),
            2 => Some(ElfEndianness::Big),
            _ => None,
        }
    }
}

/// Operating system ABI (`EI_OSABI`).
#[derive(PartialEq, Eq, Structural, Clone, Copy, Debug)]
pub enum ElfAbi {
    SystemV,
    HPUX,
    NetBSD,
    Linux,
    GNUHurd,
    Solaris,
    AIXMonterey,
    IRIX,
    FreeBSD,
    Tru64,
    NovellModesto,
    OpenBSD,
    OpenVMS,
    NonStopKernel,
    AROS,
    FenixOS,
    NuxiCloudABI,
    StratusTechnologiesOpenVOS,
}

impl ElfAbi {
    /// The number that stands for this variant in an ELF header.
    pub open spec fn code(self) -> u8 {
        match self {
            ElfAbi::SystemV => 0,
            ElfAbi::HPUX => 1,
            ElfAbi::NetBSD => 2,
            ElfAbi::Linux => 3,
            ElfAbi::GNUHurd => 4,
            ElfAbi::Solaris => 5,
            ElfAbi::AIXMonterey => 6,
            ElfAbi::IRIX => 7,
            ElfAbi::FreeBSD => 8,
            ElfAbi::Tru64 => 9,
            ElfAbi::NovellModesto => 10,
            ElfAbi::OpenBSD => 11,
            ElfAbi::OpenVMS => 12,
            ElfAbi::NonStopKernel => 13,
            ElfAbi::AROS => 14,
            ElfAbi::FenixOS => 15,
            ElfAbi::NuxiCloudABI => 16,
            ElfAbi::StratusTechnologiesOpenVOS => 17,
        }
    }

    /// The number that stands for this variant in an ELF header.
    pub fn to_primitive(&self) -> (number: u8)
        ensures
            number == self.code(),
    {
        match self {
            ElfAbi::SystemV => 0,
            ElfAbi::HPUX => 1,
            ElfAbi::NetBSD => 2,
            ElfAbi::Linux => 3,
            ElfAbi::GNUHurd => 4,
            ElfAbi::Solaris => 5,
            ElfAbi::AIXMonterey => 6,
            ElfAbi::IRIX => 7,
            ElfAbi::FreeBSD => 8,
            ElfAbi::Tru64 => 9,
            ElfAbi::NovellModesto => 10,
            ElfAbi::OpenBSD => 11,
            ElfAbi::OpenVMS => 12,
            ElfAbi::NonStopKernel => 13,
            ElfAbi::AROS => 14,
            ElfAbi::FenixOS => 15,
            ElfAbi::NuxiCloudABI => 16,
            ElfAbi::StratusTechnologiesOpenVOS => 17,
        }
    }

    /// Whether `number` stands for a variant.
    pub open spec fn known(number: u8) -> bool {
        exists|v: ElfAbi| v.code() == number
    }

    /// No two variants stand for the same number.
    pub proof fn lemma_code_is_injective(a: ElfAbi, b: ElfAbi)
        requires
            a.code() == b.code(),
        ensures
            a == b,
    {
    }

    /// The variant that `number` stands for, if there is one.
    pub fn try_from_primitive(number: u8) -> (variant: Option<Self>)
        ensures
            variant matches Some(v) ==> v.code() == number,
            variant is None ==> !Self::known(number),
    {
        match number {
            0 => Some(ElfAbi::SystemV),
            1 => Some(ElfAbi::HPUX),
            2 => Some(ElfAbi::NetBSD),
            3 => Some(ElfAbi::Linux),
            4 => Some(ElfAbi::GNUHurd),
            5 => Some(ElfAbi::Solaris),
            6 => Some(ElfAbi::AIXMonterey),
            7 => Some(ElfAbi::IRIX),
            8 => Some(ElfAbi::FreeBSD),
            9 => Some(ElfAbi::Tru64),
            10 => Some(ElfAbi::NovellModesto),
            11 => Some(ElfAbi::OpenBSD),
            12 => Some(ElfAbi::OpenVMS),
            13 => Some(ElfAbi::NonStopKernel),
            14 => Some(ElfAbi::AROS),
            15 => Some(ElfAbi::FenixOS),
            16 => Some(ElfAbi::NuxiCloudABI),
            17 => Some(ElfAbi::StratusTechnologiesOpenVOS),
            _ => None,
        }
    }
}

/// Kind of object file (`e_type`).
#[derive(PartialEq, Eq, Structural, Clone, Copy, Debug)]
pub enum ElfType {
    NoType,
    Relocatable,
    Executable,
    Dynamic,
    Core,
    LOOS,
    HIOS,
    LOPROC,
    HIPROC,
}

impl ElfType {
    /// The number that stands for this variant in an ELF header.
    pub open spec fn code(self) -> u16 {
        match self {
            ElfType::NoType => 0,
            ElfType::Relocatable => 1,
            ElfType::Executable => 2,
            ElfType::Dynamic => 3,
            ElfType::Core => 4,
            ElfType::LOOS => 0xFE00,
            ElfType::HIOS => 0xFEFF,
            ElfType::LOPROC => 0xFF00,
            ElfType::HIPROC => 0xFFFF,
        }
    }

    /// The number that stands for this variant in an ELF header.
    pub fn to_primitive(&self) -> (number: u16)
        ensures
            number == self.code(),
    {
        match self {
            ElfType::NoType => 0,
            ElfType::Relocatable => 1,
            ElfType::Executable => 2,
            ElfType::Dynamic => 3,
            ElfType::Core => 4,
            ElfType::LOOS => 0xFE00,
            ElfType::HIOS => 0xFEFF,
            ElfType::LOPROC => 0xFF00,
            ElfType::HIPROC => 0xFFFF,
        }
    }

    /// Whether `number` stands for a variant.
    pub open spec fn known(number: u16) -> bool {
        exists|v: ElfType| v.code() == number
    }

    /// No two variants stand for the same number.
    pub proof fn lemma_code_is_injective(a: ElfType, b: ElfType)
        requires
            a.code() == b.code(),
        ensures
            a == b,
    {
    }

    /// The variant that `number` stands for, if there is one.
    pub fn try_from_primitive(number: u16) -> (variant: Option<Self>)
        ensures
            variant matches Some(v) ==> v.code() == number,
            variant is None ==> !Self::known(number),
    {
        match number {
            0 => Some(ElfType::NoType),
            1 => Some(ElfType::Relocatable),
            2 => Some(ElfType::Executable),
            3 => Some(ElfType::Dynamic),
            4 => Some(ElfType::Core),
            0xFE00 => Some(ElfType::LOOS),
            0xFEFF => Some(ElfType::HIOS),
            0xFF00 => Some(ElfType::LOPROC),
            0xFFFF => Some(ElfType::HIPROC),
            _ => None,
        }
    }
}

/// Instruction set (`e_machine`).
#[derive(PartialEq, Eq, Structural, Clone, Copy, Debug)]
pub enum ElfMachine {
    NoMachine,
    ATT,
    SPARC,
    X86,
    MotorolaM68k,
    MotorolaM88k,
    IntelMCU,
    Intel80860,
    MIPS,
    IBMSystem,
    MIPSRS3000,
    HewlettPackardPARISC,
    Intel80960,
    PowerPC,
    PowerPC64,
    S390,
    IBMSPU,
    NECV800,
    FujitsuFR20,
    TRWRH,
    MotorolaRCE,
    Arm,
    DigitalAlpha,
    SuperH,
    SPARCVersion9,
    SiemensTriCore,
    ArgonautRISCCore,
    HitachiH8300,
    HitachiH8300H,
    HitachiH8S,
    HitachiH8500,
    IA64,
    StanfordMIPSX,
    MotorolaColdFire,
    MotorolaM68HC12,
    FujitsuMMAMultimediaAccelerator,
    SiemensPCP,
    SonynCPU,
    DensoNDR1microprocessor,
    MotorolaStar,
    ToyotaME16,
    STMicroelectronicsST100,
    AdvancedLogicCorpTinyJ,
    AMD64,
    SonyDSP,
    DigitalEquipmentCorp10,
    DigitalEquipmentCorp11,
    SiemensFX66,
    STMicroelectronicsST9,
    STMicroelectronicsST7,
    MotorolaMC68HC16,
    MotorolaMC68HC11,
    MotorolaMC68HC08,
    MotorolaMC68HC05,
    SiliconGraphicsSVx,
    STMicroelectronicsST19,
    DigitalVAX,
    AxisCommunications,
    InfineonTechnologies,
    Element14,
    LSILogic,
    TMS320C6000Family,
    MCSTElbruse2k,
    Arm64,
    ZilogZ80,
    RISCV,
    BerkeleyPacketFilter,
    WDC65C816,
    LoongArch,
}

impl ElfMachine {
    /// The number that stands for this variant in an ELF header.
    pub open spec fn code(self) -> u16 {
        match self {
            ElfMachine::NoMachine => 0x00,
            ElfMachine::ATT => 0x01,
            ElfMachine::SPARC => 0x02,
            ElfMachine::X86 => 0x03,
            ElfMachine::MotorolaM68k => 0x04,
            ElfMachine::MotorolaM88k => 0x05,
            ElfMachine::IntelMCU => 0x06,
            ElfMachine::Intel80860 => 0x07,
            ElfMachine::MIPS => 0x08,
            ElfMachine::IBMSystem => 0x09,
            ElfMachine::MIPSRS3000 => 0x0A,
            ElfMachine::HewlettPackardPARISC => 0x0F,
            ElfMachine::Intel80960 => 0x13,
            ElfMachine::PowerPC => 0x14,
            ElfMachine::PowerPC64 => 0x15,
            ElfMachine::S390 => 0x16,
            ElfMachine::IBMSPU => 0x17,
            ElfMachine::NECV800 => 0x24,
            ElfMachine::FujitsuFR20 => 0x25,
            ElfMachine::TRWRH => 0x26,
            ElfMachine::MotorolaRCE => 0x27,
            ElfMachine::Arm => 0x28,
            ElfMachine::DigitalAlpha => 0x29,
            ElfMachine::SuperH => 0x2A,
            ElfMachine::SPARCVersion9 => 0x2B,
            ElfMachine::SiemensTriCore => 0x2C,
            ElfMachine::ArgonautRISCCore => 0x2D,
            ElfMachine::HitachiH8300 => 0x2E,
            ElfMachine::HitachiH8300H => 0x2F,
            ElfMachine::HitachiH8S => 0x30,
            ElfMachine::HitachiH8500 => 0x31,
            ElfMachine::IA64 => 0x32,
            ElfMachine::StanfordMIPSX => 0x33,
            ElfMachine::MotorolaColdFire => 0x34,
            ElfMachine::MotorolaM68HC12 => 0x35,
            ElfMachine::FujitsuMMAMultimediaAccelerator => 0x36,
            ElfMachine::SiemensPCP => 0x37,
            ElfMachine::SonynCPU => 0x38,
            ElfMachine::DensoNDR1microprocessor => 0x39,
            ElfMachine::MotorolaStar => 0x3A,
            ElfMachine::ToyotaME16 => 0x3B,
            ElfMachine::STMicroelectronicsST100 => 0x3C,
            ElfMachine::AdvancedLogicCorpTinyJ => 0x3D,
            ElfMachine::AMD64 => 0x3E,
            ElfMachine::SonyDSP => 0x3F,
            ElfMachine::DigitalEquipmentCorp10 => 0x40,
            ElfMachine::DigitalEquipmentCorp11 => 0x41,
            ElfMachine::SiemensFX66 => 0x42,
            ElfMachine::STMicroelectronicsST9 => 0x43,
            ElfMachine::STMicroelectronicsST7 => 0x44,
            ElfMachine::MotorolaMC68HC16 => 0x45,
            ElfMachine::MotorolaMC68HC11 => 0x46,
            ElfMachine::MotorolaMC68HC08 => 0x47,
            ElfMachine::MotorolaMC68HC05 => 0x48,
            ElfMachine::SiliconGraphicsSVx => 0x49,
            ElfMachine::STMicroelectronicsST19 => 0x4A,
            ElfMachine::DigitalVAX => 0x4B,
            ElfMachine::AxisCommunications => 0x4C,
            ElfMachine::InfineonTechnologies => 0x4D,
            ElfMachine::Element14 => 0x4E,
            ElfMachine::LSILogic => 0x4F,
            ElfMachine::TMS320C6000Family => 0x8C,
            ElfMachine::MCSTElbruse2k => 0xAF,
            ElfMachine::Arm64 => 0xB7,
            ElfMachine::ZilogZ80 => 0xDC,
            ElfMachine::RISCV => 0xF3,
            ElfMachine::BerkeleyPacketFilter => 0xF7,
            ElfMachine::WDC65C816 => 0x101,
            ElfMachine::LoongArch => 0x102,
        }
    }

    /// The number that stands for this variant in an ELF header.
    pub fn to_primitive(&self) -> (number: u16)
        ensures
            number == self.code(),
    {
        match self {
            ElfMachine::NoMachine => 0x00,
            ElfMachine::ATT => 0x01,
            ElfMachine::SPARC => 0x02,
            ElfMachine::X86 => 0x03,
            ElfMachine::MotorolaM68k => 0x04,
            ElfMachine::MotorolaM88k => 0x05,
            ElfMachine::IntelMCU => 0x06,
            ElfMachine::Intel80860 => 0x07,
            ElfMachine::MIPS => 0x08,
            ElfMachine::IBMSystem => 0x09,
            ElfMachine::MIPSRS3000 => 0x0A,
            ElfMachine::HewlettPackardPARISC => 0x0F,
            ElfMachine::Intel80960 => 0x13,
            ElfMachine::PowerPC => 0x14,
            ElfMachine::PowerPC64 => 0x15,
            ElfMachine::S390 => 0x16,
            ElfMachine::IBMSPU => 0x17,
            ElfMachine::NECV800 => 0x24,
            ElfMachine::FujitsuFR20 => 0x25,
            ElfMachine::TRWRH => 0x26,
            ElfMachine::MotorolaRCE => 0x27,
            ElfMachine::Arm => 0x28,
            ElfMachine::DigitalAlpha => 0x29,
            ElfMachine::SuperH => 0x2A,
            ElfMachine::SPARCVersion9 => 0x2B,
            ElfMachine::SiemensTriCore => 0x2C,
            ElfMachine::ArgonautRISCCore => 0x2D,
            ElfMachine::HitachiH8300 => 0x2E,
            ElfMachine::HitachiH8300H => 0x2F,
            ElfMachine::HitachiH8S => 0x30,
            ElfMachine::HitachiH8500 => 0x31,
            ElfMachine::IA64 => 0x32,
            ElfMachine::StanfordMIPSX => 0x33,
            ElfMachine::MotorolaColdFire => 0x34,
            ElfMachine::MotorolaM68HC12 => 0x35,
            ElfMachine::FujitsuMMAMultimediaAccelerator => 0x36,
            ElfMachine::SiemensPCP => 0x37,
            ElfMachine::SonynCPU => 0x38,
            ElfMachine::DensoNDR1microprocessor => 0x39,
            ElfMachine::MotorolaStar => 0x3A,
            ElfMachine::ToyotaME16 => 0x3B,
            ElfMachine::STMicroelectronicsST100 => 0x3C,
            ElfMachine::AdvancedLogicCorpTinyJ => 0x3D,
            ElfMachine::AMD64 => 0x3E,
            ElfMachine::SonyDSP => 0x3F,
            ElfMachine::DigitalEquipmentCorp10 => 0x40,
            ElfMachine::DigitalEquipmentCorp11 => 0x41,
            ElfMachine::SiemensFX66 => 0x42,
            ElfMachine::STMicroelectronicsST9 => 0x43,
            ElfMachine::STMicroelectronicsST7 => 0x44,
            ElfMachine::MotorolaMC68HC16 => 0x45,
            ElfMachine::MotorolaMC68HC11 => 0x46,
            ElfMachine::MotorolaMC68HC08 => 0x47,
            ElfMachine::MotorolaMC68HC05 => 0x48,
            ElfMachine::SiliconGraphicsSVx => 0x49,
            ElfMachine::STMicroelectronicsST19 => 0x4A,
            ElfMachine::DigitalVAX => 0x4B,
            ElfMachine::AxisCommunications => 0x4C,
            ElfMachine::InfineonTechnologies => 0x4D,
            ElfMachine::Element14 => 0x4E,
            ElfMachine::LSILogic => 0x4F,
            ElfMachine::TMS320C6000Family => 0x8C,
            ElfMachine::MCSTElbruse2k => 0xAF,
            ElfMachine::Arm64 => 0xB7,
            ElfMachine::ZilogZ80 => 0xDC,
            ElfMachine::RISCV => 0xF3,
            ElfMachine::BerkeleyPacketFilter => 0xF7,
            ElfMachine::WDC65C816 => 0x101,
            ElfMachine::LoongArch => 0x102,
        }
    }

    /// Whether `number` stands for a variant.
    pub open spec fn known(number: u16) -> bool {
        exists|v: ElfMachine| v.code() == number
    }

    /// No two variants stand for the same number.
    pub proof fn lemma_code_is_injective(a: ElfMachine, b: ElfMachine)
        requires
            a.code() == b.code(),
        ensures
            a == b,
    {
    }

    /// The variant that `number` stands for, if there is one.
    pub fn try_from_primitive(number: u16) -> (variant: Option<Self>)
        ensures
            variant matches Some(v) ==> v.code() == number,
            variant is None ==> !Self::known(number),
    {
        match number {
            0x00 => Some(ElfMachine::NoMachine),
            0x01 => Some(ElfMachine::ATT),
            0x02 => Some(ElfMachine::SPARC),
            0x03 => Some(ElfMachine::X86),
            0x04 => Some(ElfMachine::MotorolaM68k),
            0x05 => Some(ElfMachine::MotorolaM88k),
            0x06 => Some(ElfMachine::IntelMCU),
            0x07 => Some(ElfMachine::Intel80860),
            0x08 => Some(ElfMachine::MIPS),
            0x09 => Some(ElfMachine::IBMSystem),
            0x0A => Some(ElfMachine::MIPSRS3000),
            0x0F => Some(ElfMachine::HewlettPackardPARISC),
            0x13 => Some(ElfMachine::Intel80960),
            0x14 => Some(ElfMachine::PowerPC),
            0x15 => Some(ElfMachine::PowerPC64),
            0x16 => Some(ElfMachine::S390),
            0x17 => Some(ElfMachine::IBMSPU),
            0x24 => Some(ElfMachine::NECV800),
            0x25 => Some(ElfMachine::FujitsuFR20),
            0x26 => Some(ElfMachine::TRWRH),
            0x27 => Some(ElfMachine::MotorolaRCE),
            0x28 => Some(ElfMachine::Arm),
            0x29 => Some(ElfMachine::DigitalAlpha),
            0x2A => Some(ElfMachine::SuperH),
            0x2B => Some(ElfMachine::SPARCVersion9),
            0x2C => Some(ElfMachine::SiemensTriCore),
            0x2D => Some(ElfMachine::ArgonautRISCCore),
            0x2E => Some(ElfMachine::HitachiH8300),
            0x2F => Some(ElfMachine::HitachiH8300H),
            0x30 => Some(ElfMachine::HitachiH8S),
            0x31 => Some(ElfMachine::HitachiH8500),
            0x32 => Some(ElfMachine::IA64),
            0x33 => Some(ElfMachine::StanfordMIPSX),
            0x34 => Some(ElfMachine::MotorolaColdFire),
            0x35 => Some(ElfMachine::MotorolaM68HC12),
            0x36 => Some(ElfMachine::FujitsuMMAMultimediaAccelerator),
            0x37 => Some(ElfMachine::SiemensPCP),
            0x38 => Some(ElfMachine::SonynCPU),
            0x39 => Some(ElfMachine::DensoNDR1microprocessor),
            0x3A => Some(ElfMachine::MotorolaStar),
            0x3B => Some(ElfMachine::ToyotaME16),
            0x3C => Some(ElfMachine::STMicroelectronicsST100),
            0x3D => Some(ElfMachine::AdvancedLogicCorpTinyJ),
            0x3E => Some(ElfMachine::AMD64),
            0x3F => Some(ElfMachine::SonyDSP),
            0x40 => Some(ElfMachine::DigitalEquipmentCorp10),
            0x41 => Some(ElfMachine::DigitalEquipmentCorp11),
            0x42 => Some(ElfMachine::SiemensFX66),
            0x43 => Some(ElfMachine::STMicroelectronicsST9),
            0x44 => Some(ElfMachine::STMicroelectronicsST7),
            0x45 => Some(ElfMachine::MotorolaMC68HC16),
            0x46 => Some(ElfMachine::MotorolaMC68HC11),
            0x47 => Some(ElfMachine::MotorolaMC68HC08),
            0x48 => Some(ElfMachine::MotorolaMC68HC05),
            0x49 => Some(ElfMachine::SiliconGraphicsSVx),
            0x4A => Some(ElfMachine::STMicroelectronicsST19),
            0x4B => Some(ElfMachine::DigitalVAX),
            0x4C => Some(ElfMachine::AxisCommunications),
            0x4D => Some(ElfMachine::InfineonTechnologies),
            0x4E => Some(ElfMachine::Element14),
            0x4F => Some(ElfMachine::LSILogic),
            0x8C => Some(ElfMachine::TMS320C6000Family),
            0xAF => Some(ElfMachine::MCSTElbruse2k),
            0xB7 => Some(ElfMachine::Arm64),
            0xDC => Some(ElfMachine::ZilogZ80),
            0xF3 => Some(ElfMachine::RISCV),
            0xF7 => Some(ElfMachine::BerkeleyPacketFilter),
            0x101 => Some(ElfMachine::WDC65C816),
            0x102 => Some(ElfMachine::LoongArch),
            _ => None,
        }
    }
}

/// An address or file offset as wide as the object file's word size.
#[derive(PartialEq, Eq, Structural, Clone, Copy, Debug)]
pub enum ElfAddress {
    Long(u32),
    Qword(u64),
}

/// The decoded ELF file header.
#[derive(Clone, Copy, Debug)]
pub struct ElfHeader {
    pub magic: ElfMagic,
    pub format: ElfFormat,
    pub endianness: ElfEndianness,
    pub version: ElfVersion,
    pub abi: ElfAbi,
    pub abi_version: AbiVersion,
    pub etype: ElfType,
    pub emachine: ElfMachine,
    pub eversion: ExVersion,
    pub entry: ElfAddress,
    pub phoff: ElfAddress,
    pub shoff: ElfAddress,
    pub flags: ElfFlags,
    pub size: u16,
    /// Size of one program header entry.
    pub phentry: u16,
    pub phcount: u16,
    /// Size of one section header entry.
    pub shentry: u16,
    pub shcount: u16,
    pub index: u16,
}

/// Length of the identification block at the start of the file.
pub const IDENT_LEN: usize = 16;

/// Length of the header fields that follow the identification block in a
/// 64-bit object.
pub const REST_LEN: usize = 48;

/// The four bytes every ELF file starts with.
pub open spec fn elf_magic() -> Seq<u8> {
    seq![0x7fu8, 0x45u8, 0x4cu8, 0x46u8]
}

/// The identification bytes start with the ELF magic and name a known
/// class, byte order and ABI.
pub open spec fn ident_decodable(ident: Seq<u8>) -> bool {
    &&& ident.len() == IDENT_LEN
    &&& ident.subrange(0, 4) == elf_magic()
    &&& ElfFormat::known(ident[4])
    &&& ElfEndianness::known(ident[5])
    &&& ElfAbi::known(ident[7])
}

/// `h` carries what the identification bytes say; every later field is zero.
pub open spec fn ident_fields(h: ElfHeader, ident: Seq<u8>) -> bool {
    &&& h.magic@ == ident.subrange(0, 4)
    &&& h.format.code() == ident[4]
    &&& h.endianness.code() == ident[5]
    &&& h.version == ident[6]
    &&& h.abi.code() == ident[7]
    &&& h.abi_version == ident[8]
    &&& h.etype == ElfType::NoType
    &&& h.emachine == ElfMachine::NoMachine
    &&& h.eversion == 0
    &&& h.entry == ElfAddress::Qword(0)
    &&& h.phoff == ElfAddress::Qword(0)
    &&& h.shoff == ElfAddress::Qword(0)
    &&& h.flags == 0
    &&& h.size == 0
    &&& h.phentry == 0
    &&& h.phcount == 0
    &&& h.shentry == 0
    &&& h.shcount == 0
    &&& h.index == 0
}

/// Offset, within the fields after the identification block, of `e_flags`:
/// the three addresses before it are 4 bytes each in a 32-bit object and
/// 8 bytes each in a 64-bit one.
pub open spec fn flags_offset(format: ElfFormat) -> int {
    match format {
        ElfFormat::Arch32 => 20,
        ElfFormat::Arch64 => 32,
    }
}

/// The `k`-th of the three addresses (entry, program headers, section
/// headers) as stored in `rest` for the given word size and byte order.
pub open spec fn address_field(rest: Seq<u8>, k: int, format: ElfFormat, big: bool) -> ElfAddress {
    match format {
        ElfFormat::Arch32 => ElfAddress::Long(endian_value(rest, 8 + 4 * k, 4, big) as u32),
        ElfFormat::Arch64 => ElfAddress::Qword(endian_value(rest, 8 + 8 * k, 8, big) as u64),
    }
}

/// Why the 48 bytes after the identification block are turned down, if
/// they are: a machine other than x86-64 is not supported, and for x86-64 an
/// unknown object kind is malformed.
pub open spec fn rest_verdict(rest: Seq<u8>, big: bool) -> Option<DebugError> {
    if endian_value(rest, 2, 2, big) != ElfMachine::AMD64.code() {
        Some(DebugError::UnsupportedTarget)
    } else if !ElfType::known(endian_value(rest, 0, 2, big) as u16) {
        Some(DebugError::MalformedBinary)
    } else {
        None
    }
}

/// `h` carries what the 48 bytes after the identification block say, read
/// with the word size and byte order that `h` itself names.
pub open spec fn rest_fields(h: ElfHeader, rest: Seq<u8>) -> bool {
    let big = h.endianness == ElfEndianness::Big;
    let i = flags_offset(h.format);
    &&& h.etype.code() == endian_value(rest, 0, 2, big)
    &&& h.emachine.code() == endian_value(rest, 2, 2, big)
    &&& h.eversion == endian_value(rest, 4, 4, big)
    &&& h.entry == address_field(rest, 0, h.format, big)
    &&& h.phoff == address_field(rest, 1, h.format, big)
    &&& h.shoff == address_field(rest, 2, h.format, big)
    &&& h.flags == endian_value(rest, i, 4, big)
    &&& h.size == endian_value(rest, i + 4, 2, big)
    &&& h.phentry == endian_value(rest, i + 6, 2, big)
    &&& h.phcount == endian_value(rest, i + 8, 2, big)
    &&& h.shentry == endian_value(rest, i + 10, 2, big)
    &&& h.shcount == endian_value(rest, i + 12, 2, big)
    &&& h.index == endian_value(rest, i + 14, 2, big)
}

/// The identification part of two headers agrees.
pub open spec fn same_ident(a: ElfHeader, b: ElfHeader) -> bool {
    &&& a.magic == b.magic
    &&& a.format == b.format
    &&& a.endianness == b.endianness
    &&& a.version == b.version
    &&& a.abi == b.abi
    &&& a.abi_version == b.abi_version
}

impl ElfAddress {
    /// The address as a number, whatever its width.
    pub open spec fn value(self) -> nat {
        match self {
            ElfAddress::Long(a) => a as nat,
            ElfAddress::Qword(a) => a as nat,
        }
    }

    /// The address as a number, whatever its width.
    pub fn to_u64(&self) -> (a: u64)
        ensures
            a == self.value(),
    {
        match self {
            ElfAddress::Long(a) => *a as u64,
            ElfAddress::Qword(a) => *a,
        }
    }
}

impl ElfHeader {
    /// Decodes the 16 identification bytes. The fields that follow them in
    /// the file are left zero until [`ElfHeader::append`] fills them.
    ///
    /// Bytes that do not start with the ELF magic, or that name an unknown
    /// class, byte order or ABI, are `MalformedBinary`.
    pub fn new(buffer: &[u8; 16]) -> (header: Result<Self, DebugError>)
        ensures
            header is Ok <==> ident_decodable(buffer@),
            header matches Ok(h) ==> ident_fields(h, buffer@),
            header matches Err(e) ==> e == DebugError::MalformedBinary,
    {
        if !(buffer[0] == 0x7f && buffer[1] == 0x45 && buffer[2] == 0x4c && buffer[3] == 0x46) {
            assert(buffer@.subrange(0, 4) != elf_magic()) by {
                assert(buffer@.subrange(0, 4)[0] == buffer@[0]);
                assert(buffer@.subrange(0, 4)[1] == buffer@[1]);
                assert(buffer@.subrange(0, 4)[2] == buffer@[2]);
                assert(buffer@.subrange(0, 4)[3] == buffer@[3]);
            }
            return Err(DebugError::MalformedBinary);
        }
        assert(buffer@.subrange(0, 4) =~= elf_magic());
        let format = match ElfFormat::try_from_primitive(buffer[4]) {
            Some(f) => f,
            None => {
                return Err(DebugError::MalformedBinary);
            },
        };
        let endianness = match ElfEndianness::try_from_primitive(buffer[5]) {
            Some(e) => e,
            None => {
                return Err(DebugError::MalformedBinary);
            },
        };
        let abi = match ElfAbi::try_from_primitive(buffer[7]) {
            Some(a) => a,
            None => {
                return Err(DebugError::MalformedBinary);
            },
        };
        let header = ElfHeader {
            magic: [buffer[0], buffer[1], buffer[2], buffer[3]],
            format,
            endianness,
            version: buffer[6],
            abi,
            abi_version: buffer[8],
            etype: ElfType::NoType,
            emachine: ElfMachine::NoMachine,
            eversion: 0,
            entry: ElfAddress::Qword(0),
            phoff: ElfAddress::Qword(0),
            shoff: ElfAddress::Qword(0),
            flags: 0,
            size: 0,
            phentry: 0,
            phcount: 0,
            shentry: 0,
            shcount: 0,
            index: 0,
        };
        assert(header.magic@ =~= buffer@.subrange(0, 4));
        Ok(header)
    }

    /// Fills in the fields that follow the identification block, reading
    /// them with the word size and byte order found there.
    ///
    /// A machine other than x86-64 is `UnsupportedTarget`, and for x86-64 an
    /// unknown object kind is `MalformedBinary`; the header then stays as it
    /// is.
    pub fn append(&mut self, buffer: &[u8; 48]) -> (done: Result<(), DebugError>)
        ensures
            done == (match rest_verdict(buffer@, old(self).endianness == ElfEndianness::Big) {
                Some(e) => Err::<(), DebugError>(e),
                None => Ok::<(), DebugError>(()),
            }),
            done is Err ==> *final(self) == *old(self),
            done is Ok ==> same_ident(*final(self), *old(self)) && rest_fields(
                *final(self),
                buffer@,
            ),
    {
        let big = match self.endianness {
            ElfEndianness::Little => false,
            ElfEndianness::Big => true,
        };
        let b = buffer.as_slice();
        proof {
            lemma_value_bounds(b@, 0, big);
            lemma_value_bounds(b@, 2, big);
        }
        let emachine = match ElfMachine::try_from_primitive(read_u16(b, 2, big)) {
            Some(ElfMachine::AMD64) => ElfMachine::AMD64,
            _ => {
                return Err(DebugError::UnsupportedTarget);
            },
        };
        let etype = match ElfType::try_from_primitive(read_u16(b, 0, big)) {
            Some(t) => t,
            None => {
                return Err(DebugError::MalformedBinary);
            },
        };
        self.etype = etype;
        self.emachine = emachine;
        self.eversion = read_u32(b, 4, big);
        let mut i: usize = 32;
        match self.format {
            ElfFormat::Arch32 => {
                self.entry = ElfAddress::Long(read_u32(b, 8, big));
                self.phoff = ElfAddress::Long(read_u32(b, 12, big));
                self.shoff = ElfAddress::Long(read_u32(b, 16, big));
                i = i - 12;
            },
            ElfFormat::Arch64 => {
                self.entry = ElfAddress::Qword(read_u64(b, 8, big));
                self.phoff = ElfAddress::Qword(read_u64(b, 16, big));
                self.shoff = ElfAddress::Qword(read_u64(b, 24, big));
            },
        }
        self.flags = read_u32(b, i, big);
        self.size = read_u16(b, i + 4, big);
        self.phentry = read_u16(b, i + 6, big);
        self.phcount = read_u16(b, i + 8, big);
        self.shentry = read_u16(b, i + 10, big);
        self.shcount = read_u16(b, i + 12, big);
        self.index = read_u16(b, i + 14, big);
        Ok(())
    }

    /// The buffer that stands for the header: the single byte 0.
    pub fn to_buffer(&self) -> (buffer: Vec<u8>)
        ensures
            buffer@ == seq![0u8],
    {
        let mut buffer: Vec<u8> = Vec::new();
        buffer.push(0);
        assert(buffer@ =~= seq![0u8]);
        buffer
    }

    /// The object is what the debugger can trace: 64-bit, for x86-64.
    pub open spec fn supported(self) -> bool {
        self.format == ElfFormat::Arch64 && self.emachine == ElfMachine::AMD64
    }
}

/// Why an executable is turned down from the start of its bytes, if it is.
///
/// Fewer than 64 bytes, or identification bytes that do not decode, are
/// malformed. Then the fields after the identification decide, and at last
/// an x86-64 object that is not a 64-bit one is not supported.
pub open spec fn load_verdict(file: Seq<u8>) -> Option<DebugError> {
    if file.len() < IDENT_LEN + REST_LEN || !ident_decodable(file.subrange(0, 16)) {
        Some(DebugError::MalformedBinary)
    } else {
        match rest_verdict(file.subrange(16, 64), file[5] == ElfEndianness::Big.code()) {
            Some(e) => Some(e),
            None => if file[4] != ElfFormat::Arch64.code() {
                Some(DebugError::UnsupportedTarget)
            } else {
                None
            },
        }
    }
}

/// Decodes the header of an executable from the start of its bytes.
///
/// The header is returned exactly for the bytes that nothing turns down;
/// every other input gets the error that [`load_verdict`] names.
pub fn elf_header(file: &[u8]) -> (result: Result<ElfHeader, DebugError>)
    ensures
        result is Ok <==> load_verdict(file@) is None,
        result matches Err(e) ==> load_verdict(file@) == Some(e),
        result matches Ok(h) ==> {
            &&& ident_fields_only(h, file@.subrange(0, 16))
            &&& rest_fields(h, file@.subrange(16, 64))
            &&& h.supported()
        },
{
    if file.len() < IDENT_LEN + REST_LEN {
        return Err(DebugError::MalformedBinary);
    }
    let mut ident: [u8; 16] = [0; 16];
    let mut k: usize = 0;
    while k < 16
        invariant
            k <= 16,
            file@.len() >= 64,
            forall|j: int| 0 <= j < k ==> ident@[j] == file@[j],
        decreases 16 - k,
    {
        ident[k] = file[k];
        k += 1;
    }
    let mut rest: [u8; 48] = [0; 48];
    let mut k: usize = 0;
    while k < 48
        invariant
            k <= 48,
            file@.len() >= 64,
            forall|j: int| 0 <= j < k ==> rest@[j] == file@[16 + j],
        decreases 48 - k,
    {
        rest[k] = file[16 + k];
        k += 1;
    }
    assert(ident@ =~= file@.subrange(0, 16));
    assert(rest@ =~= file@.subrange(16, 64));
    let mut header = match ElfHeader::new(&ident) {
        Ok(header) => header,
        Err(e) => {
            return Err(e);
        },
    };
    if let Err(e) = header.append(&rest) {
        return Err(e);
    }
    match header.format {
        ElfFormat::Arch64 => Ok(header),
        ElfFormat::Arch32 => Err(DebugError::UnsupportedTarget),
    }
}

/// The identification fields of `h` are those of `ident`.
pub open spec fn ident_fields_only(h: ElfHeader, ident: Seq<u8>) -> bool {
    &&& h.magic@ == ident.subrange(0, 4)
    &&& h.format.code() == ident[4]
    &&& h.endianness.code() == ident[5]
    &&& h.version == ident[6]
    &&& h.abi.code() == ident[7]
    &&& h.abi_version == ident[8]
}

} // verus!
