//! Dispatch of the listing subcommands over one binary's bytes.

use vstd::prelude::*;

use crate::data::dependency::deps_result;
use crate::data::dependency::Dependency;
use crate::data::export::exports_result;
use crate::data::export::Export;
use crate::data::import::imports_result;
use crate::data::import::Import;
use crate::error::BinError;

verus! {

/// Which relation of the binary to list.
pub enum Commands {
    /// List the libraries the binary depends on.
    Dependencies,
    /// List the exports of the binary.
    Exports,
    /// List the imports of the binary.
    Imports,
}

/// The records a listing subcommand produced, to be presented in order.
pub enum Listing {
    Dependencies(Vec<Dependency>),
    Exports(Vec<Export>),
    Imports(Vec<Import>),
}

/// Run one listing subcommand on a binary's bytes and hand back the
/// records to present, in extraction order.
pub fn run(command: &Commands, data: &Vec<u8>) -> (r: Result<Listing, BinError>)
    ensures
        match command {
            Commands::Dependencies => match (r, deps_result(data@)) {
                (Ok(Listing::Dependencies(v)), Ok(m)) => v@.map_values(|d: Dependency| d@)
                    == m,
                (Err(a), Err(b)) => a == b,
                _ => false,
            },
            Commands::Exports => match (r, exports_result(data@)) {
                (Ok(Listing::Exports(v)), Ok(m)) => v@.map_values(|x: Export| x@) == m,
                (Err(a), Err(b)) => a == b,
                _ => false,
            },
            Commands::Imports => match (r, imports_result(data@)) {
                (Ok(Listing::Imports(v)), Ok(m)) => v@.map_values(|x: Import| x@) == m,
                (Err(a), Err(b)) => a == b,
                _ => false,
            },
        },
{
    match command {
        Commands::Dependencies => match Dependency::read(data) {
            Ok(v) => Ok(Listing::Dependencies(v)),
            Err(e) => Err(e),
        },
        Commands::Exports => match Export::read(data) {
            Ok(v) => Ok(Listing::Exports(v)),
            Err(e) => Err(e),
        },
        Commands::Imports => match Import::read(data) {
            Ok(v) => Ok(Listing::Imports(v)),
            Err(e) => Err(e),
        },
    }
}

} // verus!
