//! A structured difference between two record lists.

use vstd::prelude::*;

use crate::data::dependency::Dependency;
use crate::data::export::Export;
use crate::data::export::ExportModel;
use crate::data::import::Import;
use crate::data::import::ImportModel;

verus! {

/// The record a single difference entry is about.
pub enum ChangedData {
    Dependency(Dependency),
    Export(Export),
    Import(Import),
}

/// The mathematical value of a `ChangedData`.
#[verifier::ext_equal]
pub enum ChangedModel {
    Dependency(Seq<char>),
    Export(ExportModel),
    Import(ImportModel),
}

impl View for ChangedData {
    type V = ChangedModel;

    open spec fn view(&self) -> ChangedModel {
        match self {
            ChangedData::Dependency(d) => ChangedModel::Dependency(d@),
            ChangedData::Export(e) => ChangedModel::Export(e@),
            ChangedData::Import(i) => ChangedModel::Import(i@),
        }
    }
}

/// One entry of a diff: a record present only in the new binary, or only
/// in the old one.
pub enum Difference {
    Added(ChangedData),
    Removed(ChangedData),
}

/// The mathematical value of a `Difference`.
#[verifier::ext_equal]
pub enum DifferenceModel {
    Added(ChangedModel),
    Removed(ChangedModel),
}

impl View for Difference {
    type V = DifferenceModel;

    open spec fn view(&self) -> DifferenceModel {
        match self {
            Difference::Added(c) => DifferenceModel::Added(c@),
            Difference::Removed(c) => DifferenceModel::Removed(c@),
        }
    }
}

} // verus!
