//! Table-level extraction: dependencies, imports, exports built from raw
//! table rows.

use binspect::data::dependency::Dependency;
use binspect::data::export::Export;
use binspect::data::export::ForwardType;
use binspect::data::import::Import;
use binspect::demangle::try_demangle_name;
use binspect::flags::CoffFileFlags;
use binspect::flags::CoffSectionFlags;
use binspect::flags::FILE_DLL;
use binspect::flags::FILE_EXECUTABLE_IMAGE;
use binspect::raw::RawGenericExport;
use binspect::raw::RawGenericTarget;
use binspect::raw::RawImport;
use binspect::raw::RawName;
use binspect::raw::RawPeExport;
use binspect::raw::RawPeTarget;
use binspect::text::format_guid;
use binspect::text::ordinal_name;

fn import_by_name(library: &str, name: &str) -> RawImport {
    RawImport {
        library: library.as_bytes().to_vec(),
        name: RawName::Name(name.as_bytes().to_vec()),
    }
}

#[test]
fn dependencies_of_three_imports() {
    let entries = vec![
        import_by_name("USER32.dll", "MessageBoxA"),
        import_by_name("USER32.dll", "MessageBoxW"),
        import_by_name("KERNEL32.dll", "ExitProcess"),
    ];
    let deps = Dependency::from_table(&entries);
    assert_eq!(deps.len(), 2);
    assert_eq!(deps[0].library, "USER32.dll");
    assert_eq!(deps[1].library, "KERNEL32.dll");
    let imports = Import::from_table(&entries);
    assert_eq!(imports.len(), 3);
}

#[test]
fn dependencies_keep_interleaved_runs() {
    let entries = vec![
        import_by_name("A.dll", "f"),
        import_by_name("B.dll", "g"),
        import_by_name("A.dll", "h"),
    ];
    let deps = Dependency::from_table(&entries);
    assert_eq!(deps.len(), 3);
    assert_eq!(deps[0].library, "A.dll");
    assert_eq!(deps[1].library, "B.dll");
    assert_eq!(deps[2].library, "A.dll");
    for i in 0..deps.len() - 1 {
        assert_ne!(deps[i].library, deps[i + 1].library);
    }
}

#[test]
fn dependencies_never_outnumber_imports() {
    let entries = vec![
        import_by_name("A.dll", "f"),
        import_by_name("A.dll", "g"),
        import_by_name("B.dll", "h"),
        import_by_name("B.dll", "i"),
    ];
    let deps = Dependency::from_table(&entries);
    let imports = Import::from_table(&entries);
    assert!(imports.len() >= deps.len());
    assert_eq!(deps.len(), 2);
}

#[test]
fn import_records_carry_all_three_names() {
    let entries = vec![import_by_name("USER32.dll", "MessageBoxA")];
    let imports = Import::from_table(&entries);
    assert_eq!(imports[0].library, "USER32.dll");
    assert_eq!(imports[0].function, "MessageBoxA");
    assert_eq!(imports[0].function_demangled, "MessageBoxA");
}

#[test]
fn import_by_ordinal_renders_hash_number() {
    let entries = vec![RawImport {
        library: b"OLD.dll".to_vec(),
        name: RawName::Ordinal(7),
    }];
    let imports = Import::from_table(&entries);
    assert_eq!(imports[0].function, "#7");
    assert_eq!(ordinal_name(0), "#0");
    assert_eq!(ordinal_name(65535), "#65535");
}

#[test]
fn demangling_falls_back_to_raw_name() {
    assert_eq!(try_demangle_name("MessageBoxA"), "MessageBoxA");
    assert_eq!(try_demangle_name("not mangled at all"), "not mangled at all");
}

#[test]
fn demangling_recovers_cpp_names() {
    let demangled = try_demangle_name("_ZN3foo3barEv");
    assert_eq!(demangled, "foo::bar()");
    let entries = vec![import_by_name("LIB.dll", "_ZN3foo3barEv")];
    let imports = Import::from_table(&entries);
    assert_eq!(imports[0].function, "_ZN3foo3barEv");
    assert_eq!(imports[0].function_demangled, "foo::bar()");
}

#[test]
fn forwarded_export_by_ordinal() {
    let entries = vec![RawPeExport {
        name: Some(b"Bar".to_vec()),
        target: RawPeTarget::ForwardByOrdinal(b"OTHER.dll".to_vec(), 7),
    }];
    let exports = Export::from_pe_table(&entries);
    assert_eq!(exports.len(), 1);
    let export = &exports[0];
    assert_eq!(export.address, None);
    assert_eq!(export.function, "Bar");
    let target = export.target.as_ref().expect("a forward must have a target");
    assert_eq!(target.library, "OTHER.dll");
    assert!(matches!(target.forward, ForwardType::Ordinal(7)));
}

#[test]
fn forwarded_export_by_name() {
    let entries = vec![RawPeExport {
        name: Some(b"EnterCS".to_vec()),
        target: RawPeTarget::ForwardByName(b"NTDLL".to_vec(), b"RtlEnterCriticalSection".to_vec()),
    }];
    let exports = Export::from_pe_table(&entries);
    let export = &exports[0];
    assert_eq!(export.address, None);
    let target = export.target.as_ref().expect("a forward must have a target");
    assert_eq!(target.library, "NTDLL");
    match &target.forward {
        ForwardType::Name(name) => assert_eq!(name, "RtlEnterCriticalSection"),
        ForwardType::Ordinal(_) => panic!("forward by name expected"),
    }
}

#[test]
fn direct_and_forwarded_exports_are_exclusive() {
    let entries = vec![
        RawPeExport {
            name: Some(b"Foo".to_vec()),
            target: RawPeTarget::Address(0x1000),
        },
        RawPeExport {
            name: Some(b"Bar".to_vec()),
            target: RawPeTarget::ForwardByOrdinal(b"OTHER.dll".to_vec(), 7),
        },
        RawPeExport {
            name: None,
            target: RawPeTarget::Address(0x2000),
        },
    ];
    let exports = Export::from_pe_table(&entries);
    for export in &exports {
        assert_eq!(export.address.is_some(), export.target.is_none());
    }
    assert_eq!(exports[0].address, Some(0x1000));
    assert_eq!(exports[2].function, "");
}

#[test]
fn generic_exports_resolve_to_addresses() {
    let entries = vec![
        RawGenericExport {
            name: RawName::Name(b"main".to_vec()),
            target: RawGenericTarget::Address(0x4010),
        },
        RawGenericExport {
            name: RawName::Name(b"reexported".to_vec()),
            target: RawGenericTarget::Reexport(b"libm.dylib".to_vec(), RawName::Name(b"cos".to_vec())),
        },
    ];
    let exports = Export::from_generic_table(&entries);
    assert_eq!(exports[0].address, Some(0x4010));
    assert!(exports[0].target.is_none());
    assert_eq!(exports[1].address, None);
    let target = exports[1].target.as_ref().expect("a re-export is a forward");
    assert_eq!(target.library, "libm.dylib");
    match &target.forward {
        ForwardType::Name(name) => assert_eq!(name, "cos"),
        ForwardType::Ordinal(_) => panic!("forward by name expected"),
    }
}

#[test]
fn guid_renders_hyphenated_lowercase() {
    let bytes = vec![
        0x00, 0x11, 0x22, 0x33, 0x44, 0x55, 0x66, 0x77, 0x88, 0x99, 0xaa, 0xbb, 0xcc, 0xdd,
        0xee, 0xff,
    ];
    assert_eq!(format_guid(&bytes), "00112233-4455-6677-8899-aabbccddeeff");
}

#[test]
fn file_flags_round_trip() {
    let raw: u16 = FILE_EXECUTABLE_IMAGE | FILE_DLL;
    let flags = CoffFileFlags::from_bits(raw).expect("every bit is named");
    assert_eq!(flags.to_bits(), raw);
    assert!(flags.contains(FILE_DLL));
    assert!(!flags.contains(0x0001));
}

#[test]
fn section_flags_reject_unnamed_bits() {
    let raw: u32 = 0x6000_0020;
    let flags = CoffSectionFlags::from_bits(raw).expect("named bits only");
    assert_eq!(flags.to_bits(), raw);
    assert!(flags.contains(0x2000_0000));
    assert!(CoffSectionFlags::from_bits(0x0000_2000).is_none());
    assert!(CoffSectionFlags::from_bits(0x0001_0000).is_none());
}
