//! Exported symbols, direct or forwarded, with a best-effort demangled
//! name.

use vstd::prelude::*;

use crate::data::import::raw_name_string;
use crate::data::import::raw_name_text;
use crate::demangle::demangle_text;
use crate::demangle::try_demangle_name;
use crate::error::BinError;
use crate::layout::Layout;
use crate::raw::RawGenericExport;
use crate::raw::RawGenericExportModel;
use crate::raw::RawGenericTarget;
use crate::raw::RawGenericTargetModel;
use crate::raw::RawName;
use crate::raw::RawNameModel;
use crate::raw::RawPeExport;
use crate::raw::RawPeExportModel;
use crate::raw::RawPeTarget;
use crate::raw::RawPeTargetModel;
use crate::text::lossy_utf8;
use crate::text::utf8_lossy;

verus! {

/// How a forwarded export names its target.
pub enum ForwardType {
    /// Forward by symbol name.
    Name(String),
    /// Forward by numeric ordinal.
    Ordinal(u64),
}

/// The mathematical value of a `ForwardType`.
#[verifier::ext_equal]
pub enum ForwardModel {
    Name(Seq<char>),
    Ordinal(u64),
}

impl View for ForwardType {
    type V = ForwardModel;

    open spec fn view(&self) -> ForwardModel {
        match self {
            ForwardType::Name(n) => ForwardModel::Name(n@),
            ForwardType::Ordinal(o) => ForwardModel::Ordinal(*o),
        }
    }
}

/// Where a forwarded export redirects its callers.
pub struct ExportForward {
    /// The library the export is forwarded to.
    pub library: String,
    /// The symbol in that library, by name or by ordinal.
    pub forward: ForwardType,
}

/// The mathematical value of an `ExportForward`.
#[verifier::ext_equal]
pub struct TargetModel {
    pub library: Seq<char>,
    pub forward: ForwardModel,
}

impl View for ExportForward {
    type V = TargetModel;

    open spec fn view(&self) -> TargetModel {
        TargetModel { library: self.library@, forward: self.forward@ }
    }
}

/// One exported symbol: a direct export with an address, or a pure forward
/// with a target.
pub struct Export {
    /// The virtual address, absent exactly when the export is a forward.
    pub address: Option<u64>,
    pub function: String,
    /// The demangled name; the raw name when demangling does not apply.
    pub function_demangled: String,
    /// The forward target, present exactly when the export is a forward.
    pub target: Option<ExportForward>,
}

/// The mathematical value of an `Export`.
#[verifier::ext_equal]
pub struct ExportModel {
    pub address: Option<u64>,
    pub function: Seq<char>,
    pub function_demangled: Seq<char>,
    pub target: Option<TargetModel>,
}

impl View for Export {
    type V = ExportModel;

    open spec fn view(&self) -> ExportModel {
        ExportModel {
            address: self.address,
            function: self.function@,
            function_demangled: self.function_demangled@,
            target: match &self.target {
                Some(t) => Some(t@),
                None => None,
            },
        }
    }
}

/// A well-formed export record is direct or forwarded, never both and
/// never neither: it has an address exactly when it has no target.
pub open spec fn export_wf(m: ExportModel) -> bool {
    (m.address is Some) <==> (m.target is None)
}

/// A direct export of `f` at address `a`.
pub open spec fn direct_export(f: Seq<char>, a: u64) -> ExportModel {
    ExportModel {
        address: Some(a),
        function: f,
        function_demangled: demangle_text(f),
        target: None,
    }
}

/// An export of `f` forwarded to `fw` in the library named by `lib`.
pub open spec fn forwarded_export(f: Seq<char>, lib: Seq<u8>, fw: ForwardModel) -> ExportModel {
    ExportModel {
        address: None,
        function: f,
        function_demangled: demangle_text(f),
        target: Some(TargetModel { library: lossy_utf8(lib), forward: fw }),
    }
}

/// The export record drawn from one PE export-directory entry.
pub open spec fn export_from_pe_entry(e: RawPeExportModel) -> ExportModel {
    let f = match e.name {
        Some(b) => lossy_utf8(b),
        None => Seq::<char>::empty(),
    };
    match e.target {
        RawPeTargetModel::Address(a) => direct_export(f, a),
        RawPeTargetModel::ForwardByName(d, n) => forwarded_export(
            f,
            d,
            ForwardModel::Name(lossy_utf8(n)),
        ),
        RawPeTargetModel::ForwardByOrdinal(d, o) => forwarded_export(
            f,
            d,
            ForwardModel::Ordinal(o as u64),
        ),
    }
}

/// The export record drawn from one export entry of a non-PE format: every
/// target that carries a value becomes a direct export of that value, a
/// re-export becomes a forward, and a target the parser does not further
/// describe is reported at address zero.
pub open spec fn export_from_generic_entry(e: RawGenericExportModel) -> ExportModel {
    let f = raw_name_text(e.name);
    match e.target {
        RawGenericTargetModel::Address(a) => direct_export(f, a),
        RawGenericTargetModel::Absolute(v) => direct_export(f, v),
        RawGenericTargetModel::Tls(o) => direct_export(f, o),
        RawGenericTargetModel::TlvDescriptor(a) => direct_export(f, a),
        RawGenericTargetModel::Resolver(r, _) => direct_export(f, r),
        RawGenericTargetModel::Reexport(lib, n) => forwarded_export(
            f,
            lib,
            match n {
                RawNameModel::Name(b) => ForwardModel::Name(lossy_utf8(b)),
                RawNameModel::Ordinal(o) => ForwardModel::Ordinal(o as u64),
            },
        ),
        RawGenericTargetModel::Other => direct_export(f, 0),
    }
}

/// The export records drawn from a PE export directory, one per entry, in
/// order.
pub open spec fn pe_export_models(table: Seq<RawPeExportModel>) -> Seq<ExportModel> {
    table.map_values(|e: RawPeExportModel| export_from_pe_entry(e))
}

/// The export records drawn from a non-PE export table, one per entry, in
/// order.
pub open spec fn generic_export_models(table: Seq<RawGenericExportModel>) -> Seq<ExportModel> {
    table.map_values(|e: RawGenericExportModel| export_from_generic_entry(e))
}

/// Every export record drawn from a PE entry is well-formed: forwarded
/// exports have no address and a target, direct exports an address and no
/// target.
pub proof fn lemma_pe_export_exclusive(e: RawPeExportModel)
    ensures
        export_wf(export_from_pe_entry(e)),
{
}

/// Every export record drawn from a generic entry is well-formed, as for
/// PE entries.
pub proof fn lemma_generic_export_exclusive(e: RawGenericExportModel)
    ensures
        export_wf(export_from_generic_entry(e)),
{
}

/// Build the forward half of a record from raw bytes.
fn forward_target(library: &Vec<u8>, forward: ForwardType) -> (r: ExportForward)
    ensures
        r@ == (TargetModel { library: lossy_utf8(library@), forward: forward@ }),
{
    ExportForward { library: utf8_lossy(library), forward }
}

/// What `Export::read` yields for these bytes: the export records of the
/// path the layout classification picks, or the first error on that path.
pub open spec fn exports_result(data: Seq<u8>) -> Result<Seq<ExportModel>, BinError> {
    match crate::parse::layout_of(data) {
        Ok(Layout::Narrow) => match crate::parse::pe32_exports_of(data) {
            Ok(t) => Ok(pe_export_models(t)),
            Err(e) => Err(e),
        },
        Ok(Layout::Wide) => match crate::parse::pe64_exports_of(data) {
            Ok(t) => Ok(pe_export_models(t)),
            Err(e) => Err(e),
        },
        Ok(Layout::Generic) => match crate::parse::generic_exports_of(data) {
            Ok(t) => Ok(generic_export_models(t)),
            Err(e) => Err(e),
        },
        Err(e) => Err(e),
    }
}

impl Export {
    /// Read the export list of a binary, dispatching on its image-header
    /// layout: the PE paths walk the export directory and classify each
    /// target, the generic path maps every export.
    pub fn read(data: &Vec<u8>) -> (r: Result<Vec<Export>, BinError>)
        ensures
            match (r, exports_result(data@)) {
                (Ok(v), Ok(m)) => v@.map_values(|x: Export| x@) == m,
                (Err(a), Err(b)) => a == b,
                _ => false,
            },
            r matches Ok(v) ==> forall|i: int|
                0 <= i < v@.len() ==> export_wf(#[trigger] v@[i]@),
    {
        let layout = match Layout::detect(data) {
            Ok(l) => l,
            Err(e) => {
                return Err(e);
            },
        };
        match layout {
            Layout::Narrow => {
                let t = match crate::parse::read_pe32_exports(data) {
                    Ok(t) => t,
                    Err(e) => {
                        return Err(e);
                    },
                };
                Ok(Export::from_pe_table(&t))
            },
            Layout::Wide => {
                let t = match crate::parse::read_pe64_exports(data) {
                    Ok(t) => t,
                    Err(e) => {
                        return Err(e);
                    },
                };
                Ok(Export::from_pe_table(&t))
            },
            Layout::Generic => {
                let t = match crate::parse::read_generic_exports(data) {
                    Ok(t) => t,
                    Err(e) => {
                        return Err(e);
                    },
                };
                Ok(Export::from_generic_table(&t))
            },
        }
    }

    /// Normalise a PE export directory: per entry, classify the target as
    /// a direct address, a forward by name, or a forward by ordinal.
    pub fn from_pe_table(entries: &Vec<RawPeExport>) -> (r: Vec<Export>)
        ensures
            r@.map_values(|x: Export| x@) == pe_export_models(
                entries@.map_values(|e: RawPeExport| e@),
            ),
            forall|i: int| 0 <= i < r@.len() ==> export_wf(#[trigger] r@[i]@),
    {
        let ghost models = entries@.map_values(|e: RawPeExport| e@);
        let mut out: Vec<Export> = Vec::new();
        let mut i: usize = 0;
        while i < entries.len()
            invariant
                i <= entries@.len(),
                models == entries@.map_values(|e: RawPeExport| e@),
                models.len() == entries@.len(),
                out@.len() == i,
                forall|k: int| 0 <= k < i ==> #[trigger] out@[k]@ == export_from_pe_entry(
                    models[k],
                ),
            decreases entries@.len() - i,
        {
            let function = match &entries[i].name {
                Some(b) => utf8_lossy(b),
                None => String::new(),
            };
            let function_demangled = try_demangle_name(function.as_str());
            let record = match &entries[i].target {
                RawPeTarget::Address(a) => Export {
                    address: Some(*a),
                    function,
                    function_demangled,
                    target: None,
                },
                RawPeTarget::ForwardByName(d, n) => Export {
                    address: None,
                    function,
                    function_demangled,
                    target: Some(forward_target(d, ForwardType::Name(utf8_lossy(n)))),
                },
                RawPeTarget::ForwardByOrdinal(d, o) => Export {
                    address: None,
                    function,
                    function_demangled,
                    target: Some(forward_target(d, ForwardType::Ordinal(*o as u64))),
                },
            };
            proof {
                assert(entries@.map_values(|e: RawPeExport| e@)[i as int] == entries@[i as int]@);
                assert(record@ =~= export_from_pe_entry(models[i as int]));
            }
            out.push(record);
            i = i + 1;
        }
        proof {
            assert(out@.map_values(|x: Export| x@) =~= pe_export_models(models));
            assert forall|i: int| 0 <= i < out@.len() implies export_wf(#[trigger] out@[i]@) by {
                lemma_pe_export_exclusive(models[i]);
            }
        }
        out
    }

    /// Normalise the export table of a non-PE format: one record per
    /// entry, a re-export becoming a forward and every other target a
    /// direct export of its value.
    pub fn from_generic_table(entries: &Vec<RawGenericExport>) -> (r: Vec<Export>)
        ensures
            r@.map_values(|x: Export| x@) == generic_export_models(
                entries@.map_values(|e: RawGenericExport| e@),
            ),
            forall|i: int| 0 <= i < r@.len() ==> export_wf(#[trigger] r@[i]@),
    {
        let ghost models = entries@.map_values(|e: RawGenericExport| e@);
        let mut out: Vec<Export> = Vec::new();
        let mut i: usize = 0;
        while i < entries.len()
            invariant
                i <= entries@.len(),
                models == entries@.map_values(|e: RawGenericExport| e@),
                models.len() == entries@.len(),
                out@.len() == i,
                forall|k: int| 0 <= k < i ==> #[trigger] out@[k]@ == export_from_generic_entry(
                    models[k],
                ),
            decreases entries@.len() - i,
        {
            let function = raw_name_string(&entries[i].name);
            let function_demangled = try_demangle_name(function.as_str());
            let record = match &entries[i].target {
                RawGenericTarget::Address(a) => Export {
                    address: Some(*a),
                    function,
                    function_demangled,
                    target: None,
                },
                RawGenericTarget::Absolute(v) => Export {
                    address: Some(*v),
                    function,
                    function_demangled,
                    target: None,
                },
                RawGenericTarget::Tls(o) => Export {
                    address: Some(*o),
                    function,
                    function_demangled,
                    target: None,
                },
                RawGenericTarget::TlvDescriptor(a) => Export {
                    address: Some(*a),
                    function,
                    function_demangled,
                    target: None,
                },
                RawGenericTarget::Resolver(rv, _) => Export {
                    address: Some(*rv),
                    function,
                    function_demangled,
                    target: None,
                },
                RawGenericTarget::Reexport(lib, n) => Export {
                    address: None,
                    function,
                    function_demangled,
                    target: Some(
                        forward_target(
                            lib,
                            match n {
                                RawName::Name(b) => ForwardType::Name(utf8_lossy(b)),
                                RawName::Ordinal(o) => ForwardType::Ordinal(*o as u64),
                            },
                        ),
                    ),
                },
                RawGenericTarget::Other => Export {
                    address: Some(0),
                    function,
                    function_demangled,
                    target: None,
                },
            };
            proof {
                assert(entries@.map_values(|e: RawGenericExport| e@)[i as int]
                    == entries@[i as int]@);
                assert(record@ =~= export_from_generic_entry(models[i as int]));
            }
            out.push(record);
            i = i + 1;
        }
        proof {
            assert(out@.map_values(|x: Export| x@) =~= generic_export_models(models));
            assert forall|i: int| 0 <= i < out@.len() implies export_wf(#[trigger] out@[i]@) by {
                lemma_generic_export_exclusive(models[i]);
            }
        }
        out
    }
}

} // verus!
