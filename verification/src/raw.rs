//! Rows of the raw tables handed over by the byte-layout parser, before
//! normalisation into the canonical records.

use vstd::prelude::*;

use crate::data::info::Machine;
use crate::data::info::Endian;
use crate::data::info::BinaryKind;
use crate::data::info::SectionClass;

verus! {

/// A symbol referenced in a raw table either by name bytes or by ordinal.
pub enum RawName {
    Name(Vec<u8>),
    Ordinal(u16),
}

/// The mathematical value of a `RawName`.
#[verifier::ext_equal]
pub enum RawNameModel {
    Name(Seq<u8>),
    Ordinal(u16),
}

impl View for RawName {
    type V = RawNameModel;

    open spec fn view(&self) -> RawNameModel {
        match self {
            RawName::Name(b) => RawNameModel::Name(b@),
            RawName::Ordinal(o) => RawNameModel::Ordinal(*o),
        }
    }
}

/// One raw import-table entry: the library it comes from and the imported
/// symbol.
pub struct RawImport {
    pub library: Vec<u8>,
    pub name: RawName,
}

/// The mathematical value of a `RawImport`.
#[verifier::ext_equal]
pub struct RawImportModel {
    pub library: Seq<u8>,
    pub name: RawNameModel,
}

impl View for RawImport {
    type V = RawImportModel;

    open spec fn view(&self) -> RawImportModel {
        RawImportModel { library: self.library@, name: self.name@ }
    }
}

/// Where one entry of a PE export directory points.
pub enum RawPeTarget {
    /// A direct virtual address.
    Address(u64),
    /// Forwarded to a named export of another library.
    ForwardByName(Vec<u8>, Vec<u8>),
    /// Forwarded to an export ordinal of another library.
    ForwardByOrdinal(Vec<u8>, u16),
}

/// The mathematical value of a `RawPeTarget`.
#[verifier::ext_equal]
pub enum RawPeTargetModel {
    Address(u64),
    ForwardByName(Seq<u8>, Seq<u8>),
    ForwardByOrdinal(Seq<u8>, u16),
}

impl View for RawPeTarget {
    type V = RawPeTargetModel;

    open spec fn view(&self) -> RawPeTargetModel {
        match self {
            RawPeTarget::Address(a) => RawPeTargetModel::Address(*a),
            RawPeTarget::ForwardByName(d, n) => RawPeTargetModel::ForwardByName(d@, n@),
            RawPeTarget::ForwardByOrdinal(d, o) => RawPeTargetModel::ForwardByOrdinal(d@, *o),
        }
    }
}

/// One entry of a PE export directory.
pub struct RawPeExport {
    /// The export's name, absent for exports by ordinal only.
    pub name: Option<Vec<u8>>,
    pub target: RawPeTarget,
}

/// The mathematical value of a `RawPeExport`.
#[verifier::ext_equal]
pub struct RawPeExportModel {
    pub name: Option<Seq<u8>>,
    pub target: RawPeTargetModel,
}

impl View for RawPeExport {
    type V = RawPeExportModel;

    open spec fn view(&self) -> RawPeExportModel {
        RawPeExportModel {
            name: match &self.name {
                Some(b) => Some(b@),
                None => None,
            },
            target: self.target@,
        }
    }
}

/// Where an export of a non-PE format points.
pub enum RawGenericTarget {
    /// A regular export at a virtual address.
    Address(u64),
    /// A symbol with an absolute value.
    Absolute(u64),
    /// A symbol in thread-local storage, at this offset.
    Tls(u64),
    /// A thread-local symbol reached through a descriptor at this address.
    TlvDescriptor(u64),
    /// An address determined by a resolver function, with an optional stub.
    Resolver(u64, Option<u64>),
    /// A symbol re-exported from another library.
    Reexport(Vec<u8>, RawName),
    /// A target kind the byte-layout parser does not further describe.
    Other,
}

/// The mathematical value of a `RawGenericTarget`.
#[verifier::ext_equal]
pub enum RawGenericTargetModel {
    Address(u64),
    Absolute(u64),
    Tls(u64),
    TlvDescriptor(u64),
    Resolver(u64, Option<u64>),
    Reexport(Seq<u8>, RawNameModel),
    Other,
}

impl View for RawGenericTarget {
    type V = RawGenericTargetModel;

    open spec fn view(&self) -> RawGenericTargetModel {
        match self {
            RawGenericTarget::Address(a) => RawGenericTargetModel::Address(*a),
            RawGenericTarget::Absolute(v) => RawGenericTargetModel::Absolute(*v),
            RawGenericTarget::Tls(o) => RawGenericTargetModel::Tls(*o),
            RawGenericTarget::TlvDescriptor(a) => RawGenericTargetModel::TlvDescriptor(*a),
            RawGenericTarget::Resolver(r, s) => RawGenericTargetModel::Resolver(*r, *s),
            RawGenericTarget::Reexport(l, n) => RawGenericTargetModel::Reexport(l@, n@),
            RawGenericTarget::Other => RawGenericTargetModel::Other,
        }
    }
}

/// One export entry of a non-PE format.
pub struct RawGenericExport {
    pub name: RawName,
    pub target: RawGenericTarget,
}

/// The mathematical value of a `RawGenericExport`.
#[verifier::ext_equal]
pub struct RawGenericExportModel {
    pub name: RawNameModel,
    pub target: RawGenericTargetModel,
}

impl View for RawGenericExport {
    type V = RawGenericExportModel;

    open spec fn view(&self) -> RawGenericExportModel {
        RawGenericExportModel { name: self.name@, target: self.target@ }
    }
}

/// The whole-file summary fields, as the byte-layout parser reports them.
#[derive(Clone, Copy, PartialEq, Eq, Structural)]
pub struct RawSummary {
    pub architecture: Machine,
    pub endianess: Endian,
    pub is_64: bool,
    pub kind: BinaryKind,
    pub has_debug_symbols: bool,
    pub entry_address: u64,
    /// The raw COFF characteristics word, on COFF-style formats only.
    pub coff_characteristics: Option<u16>,
}

/// One section, as the byte-layout parser reports it.
pub struct RawSection {
    pub name: String,
    pub kind: SectionClass,
    pub address: u64,
    pub size: u64,
    pub segment_name: Option<String>,
    /// The raw COFF section characteristics word, on COFF-style sections
    /// only.
    pub coff_characteristics: Option<u32>,
}

/// The mathematical value of a `RawSection`.
#[verifier::ext_equal]
pub struct RawSectionModel {
    pub name: Seq<char>,
    pub kind: SectionClass,
    pub address: u64,
    pub size: u64,
    pub segment_name: Option<Seq<char>>,
    pub coff_characteristics: Option<u32>,
}

impl View for RawSection {
    type V = RawSectionModel;

    open spec fn view(&self) -> RawSectionModel {
        RawSectionModel {
            name: self.name@,
            kind: self.kind,
            address: self.address,
            size: self.size,
            segment_name: match &self.segment_name {
                Some(n) => Some(n@),
                None => None,
            },
            coff_characteristics: self.coff_characteristics,
        }
    }
}

/// An embedded CodeView record, as the byte-layout parser reports it.
pub struct RawPdb {
    pub age: u32,
    /// The sixteen GUID bytes, in RFC-4122 order.
    pub guid: Vec<u8>,
    pub path: Vec<u8>,
}

/// The mathematical value of a `RawPdb`.
#[verifier::ext_equal]
pub struct RawPdbModel {
    pub age: u32,
    pub guid: Seq<u8>,
    pub path: Seq<u8>,
}

impl View for RawPdb {
    type V = RawPdbModel;

    open spec fn view(&self) -> RawPdbModel {
        RawPdbModel { age: self.age, guid: self.guid@, path: self.path@ }
    }
}

} // verus!
