//! Whole-file metadata: architecture, sections, symbols, optional debug
//! record.

use vstd::prelude::*;

use crate::error::BinError;
use crate::flags::spec_file_flags_from_bits;
use crate::flags::spec_section_flags_from_bits;
use crate::flags::CoffFileFlags;
use crate::flags::CoffSectionFlags;
use crate::raw::RawPdb;
use crate::raw::RawPdbModel;
use crate::raw::RawSection;
use crate::raw::RawSectionModel;
use crate::raw::RawSummary;
use crate::text::format_guid;
use crate::text::guid_text;
use crate::text::lossy_utf8;
use crate::text::utf8_lossy;

verus! {

/// The machine architecture a binary targets.
///
/// Architectures outside the named set are carried as `Other`.
#[derive(Clone, Copy, Debug, PartialEq, Eq, Structural)]
pub enum Machine {
    Unknown,
    Aarch64,
    Arm,
    I386,
    X86_64,
    Mips,
    Mips64,
    PowerPc,
    PowerPc64,
    Riscv64,
    Wasm32,
    Other,
}

/// Byte order of the binary.
#[derive(Clone, Copy, Debug, PartialEq, Eq, Structural)]
pub enum Endian {
    Little,
    Big,
}

/// What kind of object the file is.
#[derive(Clone, Copy, Debug, PartialEq, Eq, Structural)]
pub enum BinaryKind {
    Unknown,
    Relocatable,
    Executable,
    Dynamic,
    Core,
}

/// The kind of content a section holds.
#[derive(Clone, Copy, Debug, PartialEq, Eq, Structural)]
pub enum SectionClass {
    Text,
    Data,
    UninitializedData,
    Other,
}

/// The kind of entity a symbol names.
#[derive(Clone, Copy, Debug, PartialEq, Eq, Structural)]
pub enum SymbolClass {
    Unknown,
    Text,
    Data,
    Section,
    File,
    Label,
    Tls,
}

/// How widely a symbol is visible.
#[derive(Clone, Copy, Debug, PartialEq, Eq, Structural)]
pub enum Visibility {
    Unknown,
    Compilation,
    Linkage,
    Dynamic,
}

/// The section a symbol belongs to: a lookup key into the sibling
/// `Information::sections` sequence, never an owning reference.
#[derive(Clone, Copy, Debug, PartialEq, Eq, Structural)]
pub enum SectionRef {
    Unknown,
    NoSection,
    Undefined,
    Absolute,
    Common,
    Indexed(usize),
}

/// An embedded CodeView debug record pointing at a PDB.
pub struct PdbInfo {
    /// The age of the PDB.
    pub age: u32,
    /// The GUID of the PDB, in canonical hyphenated text form.
    pub guid: String,
    /// The path to the PDB, decoded best-effort.
    pub path: String,
}

/// The mathematical value of a `PdbInfo`.
#[verifier::ext_equal]
pub struct PdbModel {
    pub age: u32,
    pub guid: Seq<char>,
    pub path: Seq<char>,
}

impl View for PdbInfo {
    type V = PdbModel;

    open spec fn view(&self) -> PdbModel {
        PdbModel { age: self.age, guid: self.guid@, path: self.path@ }
    }
}

/// One section of the binary.
pub struct Section {
    pub name: String,
    pub kind: SectionClass,
    pub address: u64,
    pub size: u64,
    /// The segment grouping the section, on formats that have segments.
    pub segment_name: Option<String>,
    /// The COFF section characteristics, on COFF-style sections only.
    pub coff_section_flags: Option<CoffSectionFlags>,
}

/// The mathematical value of a `Section`.
#[verifier::ext_equal]
pub struct SectionModel {
    pub name: Seq<char>,
    pub kind: SectionClass,
    pub address: u64,
    pub size: u64,
    pub segment_name: Option<Seq<char>>,
    pub coff_section_flags: Option<CoffSectionFlags>,
}

impl View for Section {
    type V = SectionModel;

    open spec fn view(&self) -> SectionModel {
        SectionModel {
            name: self.name@,
            kind: self.kind,
            address: self.address,
            size: self.size,
            segment_name: match self.segment_name {
                Some(n) => Some(n@),
                None => None,
            },
            coff_section_flags: self.coff_section_flags,
        }
    }
}

/// One symbol of the binary.
pub struct Symbol {
    pub name: String,
    pub address: u64,
    pub size: u64,
    pub kind: SymbolClass,
    pub scope: Visibility,
    /// A lookup key into the sibling `Information::sections` sequence.
    pub section: SectionRef,
}

/// The mathematical value of a `Symbol`.
#[verifier::ext_equal]
pub struct SymbolModel {
    pub name: Seq<char>,
    pub address: u64,
    pub size: u64,
    pub kind: SymbolClass,
    pub scope: Visibility,
    pub section: SectionRef,
}

impl View for Symbol {
    type V = SymbolModel;

    open spec fn view(&self) -> SymbolModel {
        SymbolModel {
            name: self.name@,
            address: self.address,
            size: self.size,
            kind: self.kind,
            scope: self.scope,
            section: self.section,
        }
    }
}

/// The whole-file summary record.
pub struct Information {
    pub architecture: Machine,
    pub endianess: Endian,
    pub is_64: bool,
    pub kind: BinaryKind,
    pub has_debug_symbols: bool,
    /// The entry-point virtual address; meaningful only for executable-like
    /// kinds, and possibly zero.
    pub entry_address: u64,
    /// The COFF file characteristics, on COFF-style formats only.
    pub coff_file_flags: Option<CoffFileFlags>,
    /// The embedded PDB record, when the binary carries one.
    pub pdb_info: Option<PdbInfo>,
    /// Sections, in the order the underlying format reports them.
    pub sections: Vec<Section>,
    /// Symbols, in the order the underlying format reports them.
    pub symbols: Vec<Symbol>,
}

/// The mathematical value of an `Information`.
#[verifier::ext_equal]
pub struct InfoModel {
    pub architecture: Machine,
    pub endianess: Endian,
    pub is_64: bool,
    pub kind: BinaryKind,
    pub has_debug_symbols: bool,
    pub entry_address: u64,
    pub coff_file_flags: Option<CoffFileFlags>,
    pub pdb_info: Option<PdbModel>,
    pub sections: Seq<SectionModel>,
    pub symbols: Seq<SymbolModel>,
}

impl View for Information {
    type V = InfoModel;

    open spec fn view(&self) -> InfoModel {
        InfoModel {
            architecture: self.architecture,
            endianess: self.endianess,
            is_64: self.is_64,
            kind: self.kind,
            has_debug_symbols: self.has_debug_symbols,
            entry_address: self.entry_address,
            coff_file_flags: self.coff_file_flags,
            pdb_info: match self.pdb_info {
                Some(p) => Some(p@),
                None => None,
            },
            sections: self.sections@.map_values(|s: Section| s@),
            symbols: self.symbols@.map_values(|s: Symbol| s@),
        }
    }
}

/// The section record from one raw section: the characteristics word is
/// reconstructed into a named flag set, absent when the section is not
/// COFF-style or the word holds an unnamed bit.
pub open spec fn section_from_raw(s: RawSectionModel) -> SectionModel {
    SectionModel {
        name: s.name,
        kind: s.kind,
        address: s.address,
        size: s.size,
        segment_name: s.segment_name,
        coff_section_flags: match s.coff_characteristics {
            Some(c) => spec_section_flags_from_bits(c),
            None => None,
        },
    }
}

/// The debug record from a raw CodeView record: the GUID in canonical
/// hyphenated text, the path decoded best-effort.
pub open spec fn pdb_from_raw(p: RawPdbModel) -> PdbModel {
    PdbModel { age: p.age, guid: guid_text(p.guid), path: lossy_utf8(p.path) }
}

/// The summary record assembled from the parser's raw parts.
pub open spec fn info_from_parts(
    summary: RawSummary,
    pdb: Option<RawPdbModel>,
    sections: Seq<RawSectionModel>,
    symbols: Seq<SymbolModel>,
) -> InfoModel {
    InfoModel {
        architecture: summary.architecture,
        endianess: summary.endianess,
        is_64: summary.is_64,
        kind: summary.kind,
        has_debug_symbols: summary.has_debug_symbols,
        entry_address: summary.entry_address,
        coff_file_flags: match summary.coff_characteristics {
            Some(c) => spec_file_flags_from_bits(c),
            None => None,
        },
        pdb_info: match pdb {
            Some(p) => Some(pdb_from_raw(p)),
            None => None,
        },
        sections: sections.map_values(|s: RawSectionModel| section_from_raw(s)),
        symbols: symbols,
    }
}

/// What `Information::read` yields for these bytes: the assembled summary
/// record, or the first error among the four underlying walks.
pub open spec fn info_result(data: Seq<u8>) -> Result<InfoModel, BinError> {
    match (
        crate::parse::summary_of(data),
        crate::parse::pdb_of(data),
        crate::parse::sections_of(data),
        crate::parse::symbols_of(data),
    ) {
        (Ok(summary), Ok(p), Ok(sec), Ok(sym)) => Ok(info_from_parts(summary, p, sec, sym)),
        (Err(e), _, _, _) => Err(e),
        (_, Err(e), _, _) => Err(e),
        (_, _, Err(e), _) => Err(e),
        (_, _, _, Err(e)) => Err(e),
    }
}

impl Information {
    /// Assemble the summary record from the parser's raw parts.
    pub fn from_parts(
        summary: RawSummary,
        pdb: Option<RawPdb>,
        sections: Vec<RawSection>,
        symbols: Vec<Symbol>,
    ) -> (r: Information)
        requires
            pdb matches Some(p) ==> p.guid@.len() == 16,
        ensures
            r@ == info_from_parts(
                summary,
                match pdb {
                    Some(p) => Some(p@),
                    None => None,
                },
                sections@.map_values(|s: RawSection| s@),
                symbols@.map_values(|s: Symbol| s@),
            ),
    {
        let pdb_info: Option<PdbInfo> = match &pdb {
            Some(p) => Some(
                PdbInfo {
                    age: p.age,
                    guid: format_guid(&p.guid),
                    path: utf8_lossy(&p.path),
                },
            ),
            None => None,
        };
        let coff_file_flags: Option<CoffFileFlags> = match summary.coff_characteristics {
            Some(c) => CoffFileFlags::from_bits(c),
            None => None,
        };
        let ghost raw_sections = sections@.map_values(|s: RawSection| s@);
        let mut secs: Vec<Section> = Vec::new();
        let mut i: usize = 0;
        while i < sections.len()
            invariant
                i <= sections@.len(),
                raw_sections == sections@.map_values(|s: RawSection| s@),
                raw_sections.len() == sections@.len(),
                secs@.len() == i,
                forall|k: int|
                    0 <= k < i ==> #[trigger] secs@[k]@ == section_from_raw(raw_sections[k]),
            decreases sections@.len() - i,
        {
            let flags: Option<CoffSectionFlags> = match sections[i].coff_characteristics {
                Some(c) => CoffSectionFlags::from_bits(c),
                None => None,
            };
            let name = sections[i].name.clone();
            let segment_name = match &sections[i].segment_name {
                Some(n) => Some(n.clone()),
                None => None,
            };
            let record = Section {
                name,
                kind: sections[i].kind,
                address: sections[i].address,
                size: sections[i].size,
                segment_name,
                coff_section_flags: flags,
            };
            proof {
                assert(sections@.map_values(|s: RawSection| s@)[i as int]
                    == sections@[i as int]@);
                assert(record@ =~= section_from_raw(raw_sections[i as int]));
            }
            secs.push(record);
            i = i + 1;
        }
        let r = Information {
            architecture: summary.architecture,
            endianess: summary.endianess,
            is_64: summary.is_64,
            kind: summary.kind,
            has_debug_symbols: summary.has_debug_symbols,
            entry_address: summary.entry_address,
            coff_file_flags,
            pdb_info,
            sections: secs,
            symbols,
        };
        proof {
            assert(r@.sections =~= raw_sections.map_values(
                |s: RawSectionModel| section_from_raw(s),
            ));
            assert(r@ =~= info_from_parts(
                summary,
                match pdb {
                    Some(p) => Some(p@),
                    None => None,
                },
                sections@.map_values(|s: RawSection| s@),
                symbols@.map_values(|s: Symbol| s@),
            ));
        }
        r
    }

    /// Read the whole-file summary of a binary: architecture, endianness,
    /// kind, entry address, optional COFF characteristics, optional PDB
    /// record, and its sections and symbols in format order.
    pub fn read(data: &Vec<u8>) -> (r: Result<Information, BinError>)
        ensures
            match (r, info_result(data@)) {
                (Ok(v), Ok(m)) => v@ == m,
                (Err(a), Err(b)) => a == b,
                _ => false,
            },
    {
        let summary = match crate::parse::read_summary(data) {
            Ok(s) => s,
            Err(e) => {
                return Err(e);
            },
        };
        let pdb = match crate::parse::read_pdb(data) {
            Ok(p) => p,
            Err(e) => {
                return Err(e);
            },
        };
        let sections = match crate::parse::read_sections(data) {
            Ok(s) => s,
            Err(e) => {
                return Err(e);
            },
        };
        let symbols = match crate::parse::read_symbols(data) {
            Ok(s) => s,
            Err(e) => {
                return Err(e);
            },
        };
        Ok(Information::from_parts(summary, pdb, sections, symbols))
    }
}

} // verus!
