//! The diff engine: reflexivity, antisymmetry, one-to-one matching of
//! duplicates, and the fixed category order.

use binspect::data::dependency::Dependency;
use binspect::data::difference::ChangedData;
use binspect::data::difference::Difference;
use binspect::data::export::Export;
use binspect::data::import::Import;
use binspect::diff::diff;
use binspect::diff::diff_all;
use binspect::diff::Relations;

fn dep(library: &str) -> Dependency {
    Dependency { library: library.to_string() }
}

fn import(library: &str, function: &str) -> Import {
    Import {
        library: library.to_string(),
        function: function.to_string(),
        function_demangled: function.to_string(),
    }
}

fn direct_export(function: &str, address: u64) -> Export {
    Export {
        address: Some(address),
        function: function.to_string(),
        function_demangled: function.to_string(),
        target: None,
    }
}

fn export_key(e: &Export) -> (String, Option<u64>) {
    (e.function.clone(), e.address)
}

#[test]
fn diff_of_equal_lists_is_empty() {
    let older = vec![dep("A.dll"), dep("B.dll"), dep("A.dll")];
    let newer = vec![dep("A.dll"), dep("B.dll"), dep("A.dll")];
    assert!(diff(older, newer).is_empty());
}

#[test]
fn diff_of_equal_export_lists_is_empty() {
    let older = vec![direct_export("Foo", 0x1000), direct_export("Bar", 0x2000)];
    let newer = vec![direct_export("Foo", 0x1000), direct_export("Bar", 0x2000)];
    assert!(diff(older, newer).is_empty());
}

#[test]
fn recompiled_export_is_removed_then_added() {
    let older = vec![direct_export("Foo", 0x1000)];
    let newer = vec![direct_export("Foo", 0x2000)];
    let changes = diff(older, newer);
    assert_eq!(changes.len(), 2);
    match &changes[0] {
        Difference::Removed(ChangedData::Export(e)) => {
            assert_eq!(export_key(e), ("Foo".to_string(), Some(0x1000)));
        }
        _ => panic!("the removed entry must come first"),
    }
    match &changes[1] {
        Difference::Added(ChangedData::Export(e)) => {
            assert_eq!(export_key(e), ("Foo".to_string(), Some(0x2000)));
        }
        _ => panic!("the added entry must come second"),
    }
}

#[test]
fn demangler_output_is_not_significant() {
    let mut older = import("USER32.dll", "MessageBoxA");
    older.function_demangled = "older demangler".to_string();
    let newer = import("USER32.dll", "MessageBoxA");
    assert!(diff(vec![older], vec![newer]).is_empty());
}

#[test]
fn surviving_duplicate_shows_no_spurious_pair() {
    let older = vec![import("A.dll", "f"), import("A.dll", "f")];
    let newer = vec![import("A.dll", "f")];
    let changes = diff(older, newer);
    assert_eq!(changes.len(), 1);
    assert!(matches!(&changes[0], Difference::Removed(ChangedData::Import(_))));
}

#[test]
fn diff_is_antisymmetric_blockwise() {
    let older = vec![dep("A.dll"), dep("B.dll")];
    let newer = vec![dep("B.dll"), dep("C.dll")];
    let forward = diff(older, newer);
    let older = vec![dep("A.dll"), dep("B.dll")];
    let newer = vec![dep("B.dll"), dep("C.dll")];
    let backward = diff(newer, older);
    assert_eq!(forward.len(), 2);
    assert_eq!(backward.len(), 2);
    match (&forward[0], &backward[1]) {
        (
            Difference::Removed(ChangedData::Dependency(a)),
            Difference::Added(ChangedData::Dependency(b)),
        ) => assert_eq!(a.library, b.library),
        _ => panic!("removed entries must reappear as added ones"),
    }
    match (&forward[1], &backward[0]) {
        (
            Difference::Added(ChangedData::Dependency(a)),
            Difference::Removed(ChangedData::Dependency(b)),
        ) => assert_eq!(a.library, b.library),
        _ => panic!("added entries must reappear as removed ones"),
    }
}

#[test]
fn removed_entries_keep_old_order_added_keep_new_order() {
    let older = vec![dep("A.dll"), dep("B.dll"), dep("C.dll")];
    let newer = vec![dep("D.dll"), dep("E.dll")];
    let changes = diff(older, newer);
    let mut removed: Vec<String> = Vec::new();
    let mut added: Vec<String> = Vec::new();
    for change in &changes {
        match change {
            Difference::Removed(ChangedData::Dependency(d)) => {
                assert!(added.is_empty(), "all removed entries come first");
                removed.push(d.library.clone());
            }
            Difference::Added(ChangedData::Dependency(d)) => added.push(d.library.clone()),
            _ => panic!("only dependencies were diffed"),
        }
    }
    assert_eq!(removed, ["A.dll", "B.dll", "C.dll"]);
    assert_eq!(added, ["D.dll", "E.dll"]);
}

#[test]
fn diff_all_reports_fixed_category_order() {
    let older = Relations {
        dependencies: vec![dep("A.dll")],
        imports: vec![import("A.dll", "f")],
        exports: vec![direct_export("Foo", 0x1000)],
    };
    let newer = Relations {
        dependencies: vec![dep("B.dll")],
        imports: vec![import("B.dll", "g")],
        exports: vec![direct_export("Bar", 0x2000)],
    };
    let changes = diff_all(older, newer);
    assert_eq!(changes.len(), 6);
    assert!(matches!(&changes[0], Difference::Removed(ChangedData::Dependency(_))));
    assert!(matches!(&changes[1], Difference::Added(ChangedData::Dependency(_))));
    assert!(matches!(&changes[2], Difference::Removed(ChangedData::Import(_))));
    assert!(matches!(&changes[3], Difference::Added(ChangedData::Import(_))));
    assert!(matches!(&changes[4], Difference::Removed(ChangedData::Export(_))));
    assert!(matches!(&changes[5], Difference::Added(ChangedData::Export(_))));
}
