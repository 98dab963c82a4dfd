//! Byte-level extraction on a hand-built 64-bit PE image holding an
//! export directory (direct and forwarded entries), an import table
//! (by-name and by-ordinal entries), and a CodeView debug record.

use binspect::data::dependency::Dependency;
use binspect::data::export::Export;
use binspect::data::export::ForwardType;
use binspect::data::import::Import;
use binspect::data::info::BinaryKind;
use binspect::data::info::Endian;
use binspect::data::info::Information;
use binspect::data::info::Machine;
use binspect::data::info::SectionClass;
use binspect::data::difference::ChangedData;
use binspect::data::difference::Difference;
use binspect::diff::diff;
use binspect::layout::Layout;

const SECT_RVA: u32 = 0x1000;
const SECT_FILE: u32 = 0x200;

// Offsets of the pieces inside the single section, in order.
const FUNCS: u32 = 0x28;
const NAMES: u32 = 0x34;
const ORDS: u32 = 0x40;
const DLL_NAME: u32 = 0x46;
const NAME_FOO: u32 = 0x51;
const NAME_BAR: u32 = 0x55;
const NAME_BAZ: u32 = 0x59;
const FWD_ORDINAL: u32 = 0x5d;
const FWD_NAME: u32 = 0x6a;
const EXPORT_SIZE: u32 = 0x100;
const DESC1: u32 = 0x100;
const ILT1: u32 = 0x13c;
const ILT2: u32 = 0x154;
const HN_BOX_A: u32 = 0x16c;
const HN_BOX_W: u32 = 0x17a;
const HN_EXIT: u32 = 0x188;
const LIB_USER32: u32 = 0x196;
const LIB_KERNEL32: u32 = 0x1a1;
const DEBUG_DIR: u32 = 0x1b0;
const CODEVIEW: u32 = 0x1cc;
const CODEVIEW_SIZE: u32 = 35;

fn push_u16(out: &mut Vec<u8>, value: u16) {
    out.extend_from_slice(&value.to_le_bytes());
}

fn push_u32(out: &mut Vec<u8>, value: u32) {
    out.extend_from_slice(&value.to_le_bytes());
}

fn push_u64(out: &mut Vec<u8>, value: u64) {
    out.extend_from_slice(&value.to_le_bytes());
}

fn pad_to(out: &mut Vec<u8>, len: usize) {
    assert!(out.len() <= len, "layout overran {:#x}: {:#x}", len, out.len());
    out.resize(len, 0);
}

fn section_content(foo_address: u32) -> Vec<u8> {
    let mut sec: Vec<u8> = Vec::new();
    // Export directory.
    push_u32(&mut sec, 0); // characteristics
    push_u32(&mut sec, 0); // time stamp
    push_u16(&mut sec, 0); // major version
    push_u16(&mut sec, 0); // minor version
    push_u32(&mut sec, SECT_RVA + DLL_NAME);
    push_u32(&mut sec, 1); // ordinal base
    push_u32(&mut sec, 3); // number of functions
    push_u32(&mut sec, 3); // number of names
    push_u32(&mut sec, SECT_RVA + FUNCS);
    push_u32(&mut sec, SECT_RVA + NAMES);
    push_u32(&mut sec, SECT_RVA + ORDS);
    assert_eq!(sec.len() as u32, FUNCS);
    // Export address table: one direct address (outside the export
    // directory's range) and two forwarder strings (inside it).
    push_u32(&mut sec, foo_address);
    push_u32(&mut sec, SECT_RVA + FWD_ORDINAL);
    push_u32(&mut sec, SECT_RVA + FWD_NAME);
    assert_eq!(sec.len() as u32, NAMES);
    push_u32(&mut sec, SECT_RVA + NAME_FOO);
    push_u32(&mut sec, SECT_RVA + NAME_BAR);
    push_u32(&mut sec, SECT_RVA + NAME_BAZ);
    assert_eq!(sec.len() as u32, ORDS);
    push_u16(&mut sec, 0);
    push_u16(&mut sec, 1);
    push_u16(&mut sec, 2);
    assert_eq!(sec.len() as u32, DLL_NAME);
    sec.extend_from_slice(b"SAMPLE.dll\0");
    assert_eq!(sec.len() as u32, NAME_FOO);
    sec.extend_from_slice(b"Foo\0");
    assert_eq!(sec.len() as u32, NAME_BAR);
    sec.extend_from_slice(b"Bar\0");
    assert_eq!(sec.len() as u32, NAME_BAZ);
    sec.extend_from_slice(b"Baz\0");
    assert_eq!(sec.len() as u32, FWD_ORDINAL);
    sec.extend_from_slice(b"OTHER.dll.#7\0");
    assert_eq!(sec.len() as u32, FWD_NAME);
    sec.extend_from_slice(b"NTDLL.RtlEnterCriticalSection\0");
    pad_to(&mut sec, EXPORT_SIZE as usize);
    // Import descriptors: USER32.dll, KERNEL32.dll, then the null entry.
    assert_eq!(sec.len() as u32, DESC1);
    push_u32(&mut sec, SECT_RVA + ILT1);
    push_u32(&mut sec, 0);
    push_u32(&mut sec, 0);
    push_u32(&mut sec, SECT_RVA + LIB_USER32);
    push_u32(&mut sec, SECT_RVA + ILT1);
    push_u32(&mut sec, SECT_RVA + ILT2);
    push_u32(&mut sec, 0);
    push_u32(&mut sec, 0);
    push_u32(&mut sec, SECT_RVA + LIB_KERNEL32);
    push_u32(&mut sec, SECT_RVA + ILT2);
    for _ in 0..5 {
        push_u32(&mut sec, 0);
    }
    // Import lookup tables, 64-bit thunks.
    assert_eq!(sec.len() as u32, ILT1);
    push_u64(&mut sec, (SECT_RVA + HN_BOX_A) as u64);
    push_u64(&mut sec, (SECT_RVA + HN_BOX_W) as u64);
    push_u64(&mut sec, 0);
    assert_eq!(sec.len() as u32, ILT2);
    push_u64(&mut sec, (SECT_RVA + HN_EXIT) as u64);
    push_u64(&mut sec, 0x8000_0000_0000_0007);
    push_u64(&mut sec, 0);
    // Hint/name entries and library names.
    assert_eq!(sec.len() as u32, HN_BOX_A);
    push_u16(&mut sec, 0);
    sec.extend_from_slice(b"MessageBoxA\0");
    assert_eq!(sec.len() as u32, HN_BOX_W);
    push_u16(&mut sec, 0);
    sec.extend_from_slice(b"MessageBoxW\0");
    assert_eq!(sec.len() as u32, HN_EXIT);
    push_u16(&mut sec, 0);
    sec.extend_from_slice(b"ExitProcess\0");
    assert_eq!(sec.len() as u32, LIB_USER32);
    sec.extend_from_slice(b"USER32.dll\0");
    assert_eq!(sec.len() as u32, LIB_KERNEL32);
    sec.extend_from_slice(b"KERNEL32.dll\0");
    pad_to(&mut sec, DEBUG_DIR as usize);
    // Debug directory with one CodeView entry.
    push_u32(&mut sec, 0); // characteristics
    push_u32(&mut sec, 0); // time stamp
    push_u16(&mut sec, 0); // major version
    push_u16(&mut sec, 0); // minor version
    push_u32(&mut sec, 2); // CodeView
    push_u32(&mut sec, CODEVIEW_SIZE);
    push_u32(&mut sec, SECT_RVA + CODEVIEW);
    push_u32(&mut sec, SECT_FILE + CODEVIEW);
    assert_eq!(sec.len() as u32, CODEVIEW);
    sec.extend_from_slice(b"RSDS");
    sec.extend_from_slice(&[
        0x00, 0x11, 0x22, 0x33, 0x44, 0x55, 0x66, 0x77, 0x88, 0x99, 0xaa, 0xbb, 0xcc, 0xdd,
        0xee, 0xff,
    ]);
    push_u32(&mut sec, 1); // age
    sec.extend_from_slice(b"sample.pdb\0");
    pad_to(&mut sec, 0x400);
    sec
}

fn build_pe64_with_foo_at(foo_address: u32) -> Vec<u8> {
    let mut out: Vec<u8> = Vec::new();
    // DOS header: magic and the offset of the NT headers.
    out.extend_from_slice(b"MZ");
    pad_to(&mut out, 0x3c);
    push_u32(&mut out, 0x40);
    // NT signature and COFF file header.
    out.extend_from_slice(b"PE\0\0");
    push_u16(&mut out, 0x8664); // machine: x86-64
    push_u16(&mut out, 1); // one section
    push_u32(&mut out, 0); // time stamp
    push_u32(&mut out, 0); // symbol table
    push_u32(&mut out, 0); // symbol count
    push_u16(&mut out, 0xf0); // optional header size
    push_u16(&mut out, 0x2022); // executable, large-address-aware, DLL
    // Optional header, PE32+.
    push_u16(&mut out, 0x20b);
    out.extend_from_slice(&[0, 0]); // linker version
    push_u32(&mut out, 0); // size of code
    push_u32(&mut out, 0x400); // size of initialized data
    push_u32(&mut out, 0); // size of uninitialized data
    push_u32(&mut out, 0x1234); // entry point
    push_u32(&mut out, 0); // base of code
    push_u64(&mut out, 0x1_4000_0000); // image base
    push_u32(&mut out, 0x1000); // section alignment
    push_u32(&mut out, 0x200); // file alignment
    push_u16(&mut out, 6); // OS version
    push_u16(&mut out, 0);
    push_u16(&mut out, 0); // image version
    push_u16(&mut out, 0);
    push_u16(&mut out, 6); // subsystem version
    push_u16(&mut out, 0);
    push_u32(&mut out, 0); // win32 version value
    push_u32(&mut out, 0x2000); // size of image
    push_u32(&mut out, 0x200); // size of headers
    push_u32(&mut out, 0); // checksum
    push_u16(&mut out, 3); // subsystem
    push_u16(&mut out, 0); // dll characteristics
    push_u64(&mut out, 0x10_0000); // stack reserve
    push_u64(&mut out, 0x1000); // stack commit
    push_u64(&mut out, 0x10_0000); // heap reserve
    push_u64(&mut out, 0x1000); // heap commit
    push_u32(&mut out, 0); // loader flags
    push_u32(&mut out, 16); // data directory count
    // Data directories: export, import, debug; the rest empty.
    for id in 0..16u32 {
        match id {
            0 => {
                push_u32(&mut out, SECT_RVA);
                push_u32(&mut out, EXPORT_SIZE);
            }
            1 => {
                push_u32(&mut out, SECT_RVA + DESC1);
                push_u32(&mut out, 60);
            }
            6 => {
                push_u32(&mut out, SECT_RVA + DEBUG_DIR);
                push_u32(&mut out, 28);
            }
            _ => {
                push_u32(&mut out, 0);
                push_u32(&mut out, 0);
            }
        }
    }
    assert_eq!(out.len(), 0x148);
    // The one section header.
    out.extend_from_slice(b".rdata\0\0");
    push_u32(&mut out, 0x400); // virtual size
    push_u32(&mut out, SECT_RVA);
    push_u32(&mut out, 0x400); // size of raw data
    push_u32(&mut out, SECT_FILE);
    push_u32(&mut out, 0); // relocations
    push_u32(&mut out, 0); // line numbers
    push_u16(&mut out, 0);
    push_u16(&mut out, 0);
    push_u32(&mut out, 0x4000_0040); // initialized data, readable
    pad_to(&mut out, SECT_FILE as usize);
    out.extend_from_slice(&section_content(foo_address));
    out
}

fn build_pe64() -> Vec<u8> {
    build_pe64_with_foo_at(0x4321)
}

#[test]
fn pe64_classifies_as_wide_layout() {
    let data = build_pe64();
    assert_eq!(Layout::detect(&data), Ok(Layout::Wide));
}

#[test]
fn pe64_dependencies_run_length() {
    let data = build_pe64();
    let deps = Dependency::read(&data).expect("the import table parses");
    let names: Vec<&str> = deps.iter().map(|d| d.library.as_str()).collect();
    assert_eq!(names, ["USER32.dll", "KERNEL32.dll"]);
}

#[test]
fn pe64_imports_by_name_and_ordinal() {
    let data = build_pe64();
    let imports = Import::read(&data).expect("the import table parses");
    assert_eq!(imports.len(), 4);
    assert_eq!(imports[0].library, "USER32.dll");
    assert_eq!(imports[0].function, "MessageBoxA");
    assert_eq!(imports[0].function_demangled, "MessageBoxA");
    assert_eq!(imports[1].function, "MessageBoxW");
    assert_eq!(imports[2].library, "KERNEL32.dll");
    assert_eq!(imports[2].function, "ExitProcess");
    assert_eq!(imports[3].library, "KERNEL32.dll");
    assert_eq!(imports[3].function, "#7");
}

#[test]
fn pe64_exports_direct_and_forwarded() {
    let data = build_pe64();
    let exports = Export::read(&data).expect("the export directory parses");
    assert_eq!(exports.len(), 3);

    assert_eq!(exports[0].function, "Foo");
    assert_eq!(exports[0].address, Some(0x4321));
    assert!(exports[0].target.is_none());

    assert_eq!(exports[1].function, "Bar");
    assert_eq!(exports[1].address, None);
    let target = exports[1].target.as_ref().expect("a forward has a target");
    assert_eq!(target.library, "OTHER.dll");
    assert!(matches!(target.forward, ForwardType::Ordinal(7)));

    assert_eq!(exports[2].function, "Baz");
    assert_eq!(exports[2].address, None);
    let target = exports[2].target.as_ref().expect("a forward has a target");
    assert_eq!(target.library, "NTDLL");
    match &target.forward {
        ForwardType::Name(name) => assert_eq!(name, "RtlEnterCriticalSection"),
        ForwardType::Ordinal(_) => panic!("forward by name expected"),
    }

    for export in &exports {
        assert_eq!(export.address.is_some(), export.target.is_none());
    }
}

#[test]
fn pe64_recompiled_export_diff() {
    let older_bytes = build_pe64_with_foo_at(0x4321);
    let newer_bytes = build_pe64_with_foo_at(0x5678);
    let older = Export::read(&older_bytes).expect("the export directory parses");
    let newer = Export::read(&newer_bytes).expect("the export directory parses");
    let changes = diff(older, newer);
    assert_eq!(changes.len(), 2);
    match &changes[0] {
        Difference::Removed(ChangedData::Export(e)) => {
            assert_eq!(e.function, "Foo");
            assert_eq!(e.address, Some(0x4321));
        }
        _ => panic!("the removed export comes first"),
    }
    match &changes[1] {
        Difference::Added(ChangedData::Export(e)) => {
            assert_eq!(e.function, "Foo");
            assert_eq!(e.address, Some(0x5678));
        }
        _ => panic!("the added export comes second"),
    }
}

#[test]
fn pe64_information_summary_and_pdb() {
    let data = build_pe64();
    let info = Information::read(&data).expect("the image parses");
    assert_eq!(info.architecture, Machine::X86_64);
    assert_eq!(info.endianess, Endian::Little);
    assert!(info.is_64);
    assert_eq!(info.kind, BinaryKind::Dynamic);
    assert_eq!(info.entry_address, 0x1_4000_1234);

    let flags = info.coff_file_flags.expect("PE carries COFF characteristics");
    assert_eq!(flags.to_bits(), 0x2022);

    let pdb = info.pdb_info.as_ref().expect("the CodeView record is found");
    assert_eq!(pdb.age, 1);
    assert_eq!(pdb.guid, "00112233-4455-6677-8899-aabbccddeeff");
    assert_eq!(pdb.path, "sample.pdb");

    assert_eq!(info.sections.len(), 1);
    assert_eq!(info.sections[0].name, ".rdata");
    assert_eq!(info.sections[0].kind, SectionClass::Data);
    assert_eq!(info.sections[0].address, SECT_RVA as u64 + 0x1_4000_0000);
    let section_flags = info.sections[0]
        .coff_section_flags
        .expect("PE sections carry COFF characteristics");
    assert_eq!(section_flags.to_bits(), 0x4000_0040);
    assert!(info.symbols.is_empty());
}
