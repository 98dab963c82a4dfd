//! The trusted boundary around the byte-layout parser.
//!
//! Every function here either declares an outside type, converts one of the
//! parser's values into a plain record of this crate, or makes one parsing
//! call and hands its output over unchanged.  What each call returns for a
//! given buffer is named by an uninterpreted function of the bytes alone,
//! so that the verified extraction code above this module carries exact
//! contracts.

use vstd::prelude::*;

use object::Object;
use object::ObjectSection;
use object::ObjectSymbol;

use crate::data::info::Machine;
use crate::data::info::Endian;
use crate::data::info::BinaryKind;
use crate::data::info::SectionClass;
use crate::data::info::SymbolClass;
use crate::data::info::Visibility;
use crate::data::info::SectionRef;
use crate::data::info::Symbol;
use crate::data::info::SymbolModel;
use crate::error::BinError;
use crate::layout::Layout;
use crate::raw::RawGenericExport;
use crate::raw::RawGenericExportModel;
use crate::raw::RawGenericTarget;
use crate::raw::RawImport;
use crate::raw::RawImportModel;
use crate::raw::RawName;
use crate::raw::RawPdb;
use crate::raw::RawPdbModel;
use crate::raw::RawPeExport;
use crate::raw::RawPeExportModel;
use crate::raw::RawPeTarget;
use crate::raw::RawSection;
use crate::raw::RawSectionModel;
use crate::raw::RawSummary;

verus! {

#[verifier::external_type_specification]
#[verifier::external_body]
pub struct ExArchitecture(object::Architecture);

#[verifier::external_type_specification]
#[verifier::external_body]
pub struct ExEndianness(object::Endianness);

#[verifier::external_type_specification]
#[verifier::external_body]
pub struct ExObjectKind(object::ObjectKind);

#[verifier::external_type_specification]
#[verifier::external_body]
pub struct ExSectionKind(object::SectionKind);

#[verifier::external_type_specification]
#[verifier::external_body]
pub struct ExSymbolKind(object::SymbolKind);

#[verifier::external_type_specification]
#[verifier::external_body]
pub struct ExSymbolScope(object::SymbolScope);

#[verifier::external_type_specification]
#[verifier::external_body]
pub struct ExSymbolSection(object::SymbolSection);

#[verifier::external_type_specification]
#[verifier::external_body]
#[verifier::reject_recursive_types(T)]
pub struct ExNameOrOrdinal<T>(object::read::NameOrOrdinal<T>);

#[verifier::external_type_specification]
#[verifier::external_body]
pub struct ExExportTarget<'data>(object::read::ExportTarget<'data>);

#[verifier::external_type_specification]
#[verifier::external_body]
pub struct ExPeExportTarget<'data>(object::read::pe::ExportTarget<'data>);

/// Relies on telling `object::Architecture`'s variants apart, one arm
/// each; machine types outside this crate's named set become `Other`.
#[verifier::external_body]
fn conv_architecture(a: object::Architecture) -> Machine {
    match a {
        object::Architecture::Unknown => Machine::Unknown,
        object::Architecture::Aarch64 => Machine::Aarch64,
        object::Architecture::Arm => Machine::Arm,
        object::Architecture::I386 => Machine::I386,
        object::Architecture::X86_64 => Machine::X86_64,
        object::Architecture::Mips => Machine::Mips,
        object::Architecture::Mips64 => Machine::Mips64,
        object::Architecture::PowerPc => Machine::PowerPc,
        object::Architecture::PowerPc64 => Machine::PowerPc64,
        object::Architecture::Riscv64 => Machine::Riscv64,
        object::Architecture::Wasm32 => Machine::Wasm32,
        _ => Machine::Other,
    }
}

/// Relies on telling `object::Endianness`'s two variants apart.
#[verifier::external_body]
fn conv_endianness(e: object::Endianness) -> Endian {
    match e {
        object::Endianness::Little => Endian::Little,
        object::Endianness::Big => Endian::Big,
    }
}

/// Relies on telling `object::ObjectKind`'s variants apart, one arm each.
#[verifier::external_body]
fn conv_object_kind(k: object::ObjectKind) -> BinaryKind {
    match k {
        object::ObjectKind::Relocatable => BinaryKind::Relocatable,
        object::ObjectKind::Executable => BinaryKind::Executable,
        object::ObjectKind::Dynamic => BinaryKind::Dynamic,
        object::ObjectKind::Core => BinaryKind::Core,
        _ => BinaryKind::Unknown,
    }
}

/// Relies on telling `object::SectionKind`'s variants apart: code, the
/// initialized-data kinds, the uninitialized-data kinds, everything else.
#[verifier::external_body]
fn conv_section_kind(k: object::SectionKind) -> SectionClass {
    match k {
        object::SectionKind::Text => SectionClass::Text,
        object::SectionKind::Data
        | object::SectionKind::ReadOnlyData
        | object::SectionKind::ReadOnlyDataWithRel
        | object::SectionKind::ReadOnlyString
        | object::SectionKind::Tls => SectionClass::Data,
        object::SectionKind::UninitializedData
        | object::SectionKind::UninitializedTls => SectionClass::UninitializedData,
        _ => SectionClass::Other,
    }
}

/// Relies on telling `object::SymbolKind`'s variants apart, one arm each.
#[verifier::external_body]
fn conv_symbol_kind(k: object::SymbolKind) -> SymbolClass {
    match k {
        object::SymbolKind::Text => SymbolClass::Text,
        object::SymbolKind::Data => SymbolClass::Data,
        object::SymbolKind::Section => SymbolClass::Section,
        object::SymbolKind::File => SymbolClass::File,
        object::SymbolKind::Label => SymbolClass::Label,
        object::SymbolKind::Tls => SymbolClass::Tls,
        _ => SymbolClass::Unknown,
    }
}

/// Relies on telling `object::SymbolScope`'s variants apart, one arm each.
#[verifier::external_body]
fn conv_symbol_scope(s: object::SymbolScope) -> Visibility {
    match s {
        object::SymbolScope::Compilation => Visibility::Compilation,
        object::SymbolScope::Linkage => Visibility::Linkage,
        object::SymbolScope::Dynamic => Visibility::Dynamic,
        _ => Visibility::Unknown,
    }
}

/// Relies on telling `object::SymbolSection`'s variants apart, one arm
/// each, a section reference becoming its plain index.
#[verifier::external_body]
fn conv_symbol_section(s: object::SymbolSection) -> SectionRef {
    match s {
        object::SymbolSection::None => SectionRef::NoSection,
        object::SymbolSection::Undefined => SectionRef::Undefined,
        object::SymbolSection::Absolute => SectionRef::Absolute,
        object::SymbolSection::Common => SectionRef::Common,
        object::SymbolSection::Section(idx) => SectionRef::Indexed(idx.0),
        _ => SectionRef::Unknown,
    }
}

/// Relies on telling `object::read::NameOrOrdinal`'s variants apart, one
/// arm each.
#[verifier::external_body]
fn conv_raw_name(n: object::read::NameOrOrdinal<&[u8]>) -> RawName {
    match n {
        object::read::NameOrOrdinal::Name(b) => RawName::Name(b.to_vec()),
        object::read::NameOrOrdinal::Ordinal(o) => RawName::Ordinal(o),
    }
}

/// Relies on telling `object::read::ExportTarget`'s variants apart, one
/// arm each, moving each variant's values.
#[verifier::external_body]
fn conv_generic_target(t: object::read::ExportTarget<'_>) -> RawGenericTarget {
    match t {
        object::read::ExportTarget::Address { address } => RawGenericTarget::Address(address),
        object::read::ExportTarget::Absolute { value } => RawGenericTarget::Absolute(value),
        object::read::ExportTarget::Tls { offset } => RawGenericTarget::Tls(offset),
        object::read::ExportTarget::TlvDescriptor { address } => RawGenericTarget::TlvDescriptor(address),
        object::read::ExportTarget::Resolver { resolver, stub } => RawGenericTarget::Resolver(resolver, stub),
        object::read::ExportTarget::Reexport { library, name } => RawGenericTarget::Reexport(library.to_vec(), conv_raw_name(name)),
        _ => RawGenericTarget::Other,
    }
}

/// What classification returns for these bytes.
pub uninterp spec fn layout_of(data: Seq<u8>) -> Result<Layout, BinError>;

/// What the whole-file summary read returns for these bytes.
pub uninterp spec fn summary_of(data: Seq<u8>) -> Result<RawSummary, BinError>;

/// What the section walk returns for these bytes.
pub uninterp spec fn sections_of(data: Seq<u8>) -> Result<Seq<RawSectionModel>, BinError>;

/// What the symbol walk returns for these bytes.
pub uninterp spec fn symbols_of(data: Seq<u8>) -> Result<Seq<SymbolModel>, BinError>;

/// What the debug-directory lookup returns for these bytes.
pub uninterp spec fn pdb_of(data: Seq<u8>) -> Result<Option<RawPdbModel>, BinError>;

/// What the import-table walk returns for these bytes.
pub uninterp spec fn import_table_of(data: Seq<u8>) -> Result<Seq<RawImportModel>, BinError>;

/// What the 32-bit PE export-directory walk returns for these bytes.
pub uninterp spec fn pe32_exports_of(data: Seq<u8>) -> Result<Seq<RawPeExportModel>, BinError>;

/// What the 64-bit PE export-directory walk returns for these bytes.
pub uninterp spec fn pe64_exports_of(data: Seq<u8>) -> Result<Seq<RawPeExportModel>, BinError>;

/// What the generic export walk returns for these bytes.
pub uninterp spec fn generic_exports_of(data: Seq<u8>) -> Result<
    Seq<RawGenericExportModel>,
    BinError,
>;

/// The views of a returned table, or the error, for stating that a call
/// returned exactly what its name says.
pub open spec fn table_view<T: View>(r: Result<Vec<T>, BinError>) -> Result<Seq<T::V>, BinError> {
    match r {
        Ok(v) => Ok(v@.map_values(|t: T| t@)),
        Err(e) => Err(e),
    }
}

/// Relies on `object::FileKind::parse`: the two PE image-header layouts
/// are told apart; the formats `object::File::parse` accepts are handled
/// uniformly; recognized magics without such a path are refused as
/// unsupported, unrecognized ones as malformed.
#[verifier::external_body]
pub(crate) fn classify_bytes(data: &Vec<u8>) -> (r: Result<Layout, BinError>)
    ensures
        r == layout_of(data@),
{
    match object::FileKind::parse(data.as_slice()) {
        Ok(object::FileKind::Pe32) => Ok(Layout::Narrow),
        Ok(object::FileKind::Pe64) => Ok(Layout::Wide),
        Ok(object::FileKind::Coff) | Ok(object::FileKind::CoffBig) => Ok(Layout::Generic),
        Ok(object::FileKind::Elf32) | Ok(object::FileKind::Elf64) => Ok(Layout::Generic),
        Ok(object::FileKind::MachO32) | Ok(object::FileKind::MachO64) => Ok(Layout::Generic),
        Ok(object::FileKind::Xcoff32) | Ok(object::FileKind::Xcoff64) => Ok(Layout::Generic),
        Ok(_) => Err(BinError::UnsupportedFormat),
        Err(_) => Err(BinError::MalformedInput),
    }
}

/// Relies on `object::File::parse` and the `Object` summary accessors
/// (`architecture`, `endianness`, `is_64`, `kind`, `has_debug_symbols`,
/// `entry`, `flags`); the COFF characteristics word is kept only when the
/// file flags are COFF-style.
#[verifier::external_body]
pub(crate) fn read_summary(data: &Vec<u8>) -> (r: Result<RawSummary, BinError>)
    ensures
        r == summary_of(data@),
{
    let f = object::File::parse(data.as_slice()).map_err(|_| BinError::MalformedInput)?;
    let coff = match f.flags() {
        object::FileFlags::Coff { characteristics } => Some(characteristics.0),
        _ => None,
    };
    Ok(RawSummary {
        architecture: conv_architecture(f.architecture()),
        endianess: conv_endianness(f.endianness()),
        is_64: f.is_64(),
        kind: conv_object_kind(f.kind()),
        has_debug_symbols: f.has_debug_symbols(),
        entry_address: f.entry(),
        coff_characteristics: coff,
    })
}

/// Relies on `object::File::parse` and the `ObjectSection` accessors, in
/// the order the format reports its sections; a name that fails to decode
/// becomes empty, and the COFF characteristics word is kept only for
/// COFF-style sections.
#[verifier::external_body]
pub(crate) fn read_sections(data: &Vec<u8>) -> (r: Result<Vec<RawSection>, BinError>)
    ensures
        table_view(r) == sections_of(data@),
{
    let f = object::File::parse(data.as_slice()).map_err(|_| BinError::MalformedInput)?;
    Ok(f.sections().map(|s| RawSection {
        name: s.name().unwrap_or_default().to_string(),
        kind: conv_section_kind(s.kind()),
        address: s.address(),
        size: s.size(),
        segment_name: match s.segment_name() { Ok(Some(n)) => Some(n.to_string()), _ => None },
        coff_characteristics: match s.flags() { object::SectionFlags::Coff { characteristics } => Some(characteristics.0), _ => None },
    }).collect())
}

/// Relies on `object::File::parse` and the `ObjectSymbol` accessors, in
/// the order the format reports its symbols; a name that fails to decode
/// becomes empty.
#[verifier::external_body]
pub(crate) fn read_symbols(data: &Vec<u8>) -> (r: Result<Vec<Symbol>, BinError>)
    ensures
        table_view(r) == symbols_of(data@),
{
    let f = object::File::parse(data.as_slice()).map_err(|_| BinError::MalformedInput)?;
    Ok(f.symbols().map(|s| Symbol {
        name: s.name().unwrap_or_default().to_string(),
        address: s.address(),
        size: s.size(),
        kind: conv_symbol_kind(s.kind()),
        scope: conv_symbol_scope(s.scope()),
        section: conv_symbol_section(s.section()),
    }).collect())
}

/// Relies on `object::File::parse` and `Object::pdb_info`: the embedded
/// CodeView record when the binary carries one; a failed or absent lookup
/// is no record.  A CodeView GUID is sixteen bytes.
#[verifier::external_body]
pub(crate) fn read_pdb(data: &Vec<u8>) -> (r: Result<Option<RawPdb>, BinError>)
    ensures
        r matches Ok(Some(p)) ==> p.guid@.len() == 16,
        match r {
            Ok(Some(p)) => pdb_of(data@) == Ok::<Option<RawPdbModel>, BinError>(Some(p@)),
            Ok(None) => pdb_of(data@) == Ok::<Option<RawPdbModel>, BinError>(None),
            Err(e) => pdb_of(data@) == Err::<Option<RawPdbModel>, BinError>(e),
        },
{
    let f = object::File::parse(data.as_slice()).map_err(|_| BinError::MalformedInput)?;
    Ok(match f.pdb_info() {
        Ok(Some(p)) => Some(RawPdb { age: p.age(), guid: p.guid().to_vec(), path: p.path().to_vec() }),
        _ => None,
    })
}

/// Relies on `object::File::parse` and `Object::imports`: one row per
/// import-table entry, in table order, each the library bytes and the
/// imported name or ordinal.
#[verifier::external_body]
pub(crate) fn read_import_table(data: &Vec<u8>) -> (r: Result<Vec<RawImport>, BinError>)
    ensures
        table_view(r) == import_table_of(data@),
{
    let f = object::File::parse(data.as_slice()).map_err(|_| BinError::MalformedInput)?;
    let iter = f.imports().map_err(|_| BinError::MalformedInput)?;
    let mut out = Vec::new();
    for item in iter {
        let imp = item.map_err(|_| BinError::MalformedInput)?;
        out.push(RawImport { library: imp.library().to_vec(), name: conv_raw_name(imp.name()) });
    }
    Ok(out)
}

/// Relies on `object::read::pe::PeFile32::parse`, `export_table` and
/// `ExportTable::exports`: one row per export-directory entry, in table
/// order; a missing export directory is an empty table.
#[verifier::external_body]
pub(crate) fn read_pe32_exports(data: &Vec<u8>) -> (r: Result<Vec<RawPeExport>, BinError>)
    ensures
        table_view(r) == pe32_exports_of(data@),
{
    let f = object::read::pe::PeFile32::parse(data.as_slice()).map_err(|_| BinError::MalformedInput)?;
    let table = match f.export_table().map_err(|_| BinError::MalformedInput)? {
        Some(t) => t,
        None => return Ok(Vec::new()),
    };
    let exports = table.exports().map_err(|_| BinError::MalformedInput)?;
    Ok(exports.into_iter().map(|e| RawPeExport {
        name: e.name.map(|n| n.to_vec()),
        target: conv_pe_target(e.target),
    }).collect())
}

/// Relies on `object::read::pe::PeFile64::parse`, `export_table` and
/// `ExportTable::exports`, as for the 32-bit layout.
#[verifier::external_body]
pub(crate) fn read_pe64_exports(data: &Vec<u8>) -> (r: Result<Vec<RawPeExport>, BinError>)
    ensures
        table_view(r) == pe64_exports_of(data@),
{
    let f = object::read::pe::PeFile64::parse(data.as_slice()).map_err(|_| BinError::MalformedInput)?;
    let table = match f.export_table().map_err(|_| BinError::MalformedInput)? {
        Some(t) => t,
        None => return Ok(Vec::new()),
    };
    let exports = table.exports().map_err(|_| BinError::MalformedInput)?;
    Ok(exports.into_iter().map(|e| RawPeExport {
        name: e.name.map(|n| n.to_vec()),
        target: conv_pe_target(e.target),
    }).collect())
}

/// Relies on telling `object::read::pe::ExportTarget`'s variants apart,
/// one arm each, moving each variant's values.
#[verifier::external_body]
fn conv_pe_target(t: object::read::pe::ExportTarget<'_>) -> RawPeTarget {
    match t {
        object::read::pe::ExportTarget::Address(a) => RawPeTarget::Address(u64::from(a)),
        object::read::pe::ExportTarget::ForwardByName(d, n) => RawPeTarget::ForwardByName(d.to_vec(), n.to_vec()),
        object::read::pe::ExportTarget::ForwardByOrdinal(d, o) => RawPeTarget::ForwardByOrdinal(d.to_vec(), o.0),
    }
}

/// Relies on `object::File::parse` and `Object::exports`: one row per
/// export, in the order the format reports them.
#[verifier::external_body]
pub(crate) fn read_generic_exports(data: &Vec<u8>) -> (r: Result<Vec<RawGenericExport>, BinError>)
    ensures
        table_view(r) == generic_exports_of(data@),
{
    let f = object::File::parse(data.as_slice()).map_err(|_| BinError::MalformedInput)?;
    let iter = f.exports().map_err(|_| BinError::MalformedInput)?;
    let mut out = Vec::new();
    for item in iter {
        let exp = item.map_err(|_| BinError::MalformedInput)?;
        out.push(RawGenericExport { name: conv_raw_name(exp.name()), target: conv_generic_target(exp.target()) });
    }
    Ok(out)
}

} // verus!
