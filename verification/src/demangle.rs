//! Symbol-name demangling, delegated to the `symbolic` demangler with a
//! verified fallback to the raw name.

use vstd::prelude::*;

verus! {

/// What the outside demangler returns for this raw name: the demangled
/// text, or nothing when the language cannot be detected, is unsupported,
/// or demangling fails.
pub uninterp spec fn demangled_opt(raw: Seq<char>) -> Option<Seq<char>>;

/// The demangled form of a raw symbol name: the demangler's output, or the
/// raw name itself when demangling does not apply.
pub open spec fn demangle_text(raw: Seq<char>) -> Seq<char> {
    match demangled_opt(raw) {
        Some(d) => d,
        None => raw,
    }
}

/// Relies on `symbolic_demangle::Demangle::demangle` (complete options) on
/// a `symbolic_common::Name` built from the raw text: the result depends on
/// the characters of the name alone.
#[verifier::external_body]
fn demangle_raw(raw: &str) -> (r: Option<String>)
    ensures
        match (r, demangled_opt(raw@)) {
            (Some(s), Some(d)) => s@ == d,
            (None, None) => true,
            _ => false,
        },
{
    let name = symbolic::common::Name::from(raw);
    symbolic::demangle::Demangle::demangle(&name, symbolic::demangle::DemangleOptions::complete())
}

/// Demangle a raw symbol name, falling back to the raw name itself when
/// demangling does not apply or fails.
pub fn try_demangle_name(raw: &str) -> (r: String)
    ensures
        r@ == demangle_text(raw@),
{
    match demangle_raw(raw) {
        Some(s) => s,
        None => raw.to_owned(),
    }
}

/// Fallback law: a raw name that the demangler does not accept comes back
/// unchanged.
pub proof fn lemma_demangle_fallback(raw: Seq<char>)
    requires
        demangled_opt(raw) is None,
    ensures
        demangle_text(raw) == raw,
{
}

} // verus!
