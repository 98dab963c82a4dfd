//! Imported symbols: one record per raw import-table entry, with a
//! best-effort demangled name.

use vstd::prelude::*;

use crate::demangle::demangle_text;
use crate::demangle::try_demangle_name;
use crate::error::BinError;
use crate::raw::RawImport;
use crate::raw::RawImportModel;
use crate::raw::RawName;
use crate::raw::RawNameModel;
use crate::text::lossy_utf8;
use crate::text::ordinal_name;
use crate::text::ordinal_text;
use crate::text::utf8_lossy;

verus! {

/// One imported symbol.
pub struct Import {
    pub library: String,
    /// The raw imported name, or `#` and the ordinal for imports by
    /// ordinal.
    pub function: String,
    /// The demangled name; the raw name when demangling does not apply.
    pub function_demangled: String,
}

/// The mathematical value of an `Import`.
#[verifier::ext_equal]
pub struct ImportModel {
    pub library: Seq<char>,
    pub function: Seq<char>,
    pub function_demangled: Seq<char>,
}

impl View for Import {
    type V = ImportModel;

    open spec fn view(&self) -> ImportModel {
        ImportModel {
            library: self.library@,
            function: self.function@,
            function_demangled: self.function_demangled@,
        }
    }
}

/// The text of a raw table name: the decoded name bytes, or the rendered
/// ordinal.
pub open spec fn raw_name_text(n: RawNameModel) -> Seq<char> {
    match n {
        RawNameModel::Name(b) => lossy_utf8(b),
        RawNameModel::Ordinal(o) => ordinal_text(o as nat),
    }
}

/// The import record drawn from one raw import-table entry.
pub open spec fn import_from_entry(e: RawImportModel) -> ImportModel {
    ImportModel {
        library: lossy_utf8(e.library),
        function: raw_name_text(e.name),
        function_demangled: demangle_text(raw_name_text(e.name)),
    }
}

/// The import records drawn from a raw import table, one per entry, in
/// order.
pub open spec fn import_models(table: Seq<RawImportModel>) -> Seq<ImportModel> {
    table.map_values(|e: RawImportModel| import_from_entry(e))
}

/// An import list has exactly as many entries as the raw table, and so at
/// least as many as the dependency list drawn from the same table.
pub proof fn lemma_imports_cover_dependencies(table: Seq<RawImportModel>)
    ensures
        import_models(table).len() == table.len(),
        import_models(table).len() >= crate::data::dependency::dependency_names(table).len(),
{
    crate::data::dependency::lemma_run_length_dedup_len(
        table.map_values(|e: RawImportModel| lossy_utf8(e.library)),
    );
}

/// Render the name of one raw table entry.
pub(crate) fn raw_name_string(n: &RawName) -> (r: String)
    ensures
        r@ == raw_name_text(n@),
{
    match n {
        RawName::Name(b) => utf8_lossy(b),
        RawName::Ordinal(o) => ordinal_name(*o),
    }
}

/// What `Import::read` yields for these bytes: one record per import-table
/// entry, or the walk's error.
pub open spec fn imports_result(data: Seq<u8>) -> Result<Seq<ImportModel>, BinError> {
    match crate::parse::import_table_of(data) {
        Ok(t) => Ok(import_models(t)),
        Err(e) => Err(e),
    }
}

impl Import {
    /// Read the import list of a binary: one record per raw import-table
    /// entry, in table order.
    pub fn read(data: &Vec<u8>) -> (r: Result<Vec<Import>, BinError>)
        ensures
            match (r, imports_result(data@)) {
                (Ok(v), Ok(m)) => v@.map_values(|x: Import| x@) == m,
                (Err(a), Err(b)) => a == b,
                _ => false,
            },
    {
        let entries = match crate::parse::read_import_table(data) {
            Ok(t) => t,
            Err(e) => {
                return Err(e);
            },
        };
        Ok(Import::from_table(&entries))
    }

    /// Normalise a raw import table: one record per entry, in table order,
    /// each with the decoded library name, the raw symbol name, and its
    /// best-effort demangling.
    pub fn from_table(entries: &Vec<RawImport>) -> (r: Vec<Import>)
        ensures
            r@.map_values(|x: Import| x@) == import_models(
                entries@.map_values(|e: RawImport| e@),
            ),
    {
        let ghost models = entries@.map_values(|e: RawImport| e@);
        let mut out: Vec<Import> = Vec::new();
        let mut i: usize = 0;
        while i < entries.len()
            invariant
                i <= entries@.len(),
                models == entries@.map_values(|e: RawImport| e@),
                models.len() == entries@.len(),
                out@.len() == i,
                forall|k: int| 0 <= k < i ==> #[trigger] out@[k]@ == import_from_entry(models[k]),
            decreases entries@.len() - i,
        {
            let library = utf8_lossy(&entries[i].library);
            let function = raw_name_string(&entries[i].name);
            let function_demangled = try_demangle_name(function.as_str());
            let record = Import { library, function, function_demangled };
            proof {
                assert(entries@.map_values(|e: RawImport| e@)[i as int] == entries@[i as int]@);
                assert(record@ =~= import_from_entry(models[i as int]));
            }
            out.push(record);
            i = i + 1;
        }
        proof {
            assert(out@.map_values(|x: Import| x@) =~= import_models(models));
        }
        out
    }
}

} // verus!
