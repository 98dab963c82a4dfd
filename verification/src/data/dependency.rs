//! Library dependencies, read off the raw import table by run-length
//! deduplication of the library names.

use vstd::prelude::*;

use crate::error::BinError;
use crate::raw::RawImport;
use crate::raw::RawImportModel;
use crate::text::lossy_utf8;
use crate::text::utf8_lossy;

verus! {

/// One library the binary depends on.
pub struct Dependency {
    pub library: String,
}

impl View for Dependency {
    type V = Seq<char>;

    open spec fn view(&self) -> Seq<char> {
        self.library@
    }
}

/// Run-length deduplication: an element is kept exactly when it is first,
/// or differs from its immediate predecessor.
pub open spec fn run_length_dedup<A>(s: Seq<A>) -> Seq<A>
    decreases s.len(),
{
    if s.len() == 0 {
        Seq::empty()
    } else if s.len() == 1 {
        s
    } else if s.last() == s.drop_last().last() {
        run_length_dedup(s.drop_last())
    } else {
        run_length_dedup(s.drop_last()).push(s.last())
    }
}

/// The library names of the dependency list drawn from a raw import table:
/// the decoded library names, compressed by runs.
pub open spec fn dependency_names(table: Seq<RawImportModel>) -> Seq<Seq<char>> {
    run_length_dedup(table.map_values(|e: RawImportModel| lossy_utf8(e.library)))
}

/// A run-length deduplicated sequence is never longer than its source.
pub proof fn lemma_run_length_dedup_len<A>(s: Seq<A>)
    ensures
        run_length_dedup(s).len() <= s.len(),
    decreases s.len(),
{
    if s.len() > 1 {
        lemma_run_length_dedup_len(s.drop_last());
    }
}

/// A run-length deduplicated sequence of a non-empty source is non-empty
/// and ends with the source's last element.
pub proof fn lemma_run_length_dedup_last<A>(s: Seq<A>)
    requires
        s.len() > 0,
    ensures
        run_length_dedup(s).len() >= 1,
        run_length_dedup(s).last() == s.last(),
    decreases s.len(),
{
    if s.len() > 1 {
        lemma_run_length_dedup_last(s.drop_last());
    }
}

/// No two adjacent elements of a run-length deduplicated sequence are
/// equal; the same element may still recur non-adjacently.
pub proof fn lemma_run_length_dedup_adjacent<A>(s: Seq<A>)
    ensures
        forall|i: int|
            0 <= i < run_length_dedup(s).len() - 1 ==> #[trigger] run_length_dedup(s)[i]
                != run_length_dedup(s)[i + 1],
    decreases s.len(),
{
    if s.len() > 1 {
        let pre = s.drop_last();
        lemma_run_length_dedup_adjacent(pre);
        lemma_run_length_dedup_last(pre);
        if s.last() != pre.last() {
            let r = run_length_dedup(s);
            let rp = run_length_dedup(pre);
            assert forall|i: int| 0 <= i < r.len() - 1 implies #[trigger] r[i] != r[i + 1] by {
                if i < rp.len() - 1 {
                    assert(r[i] == rp[i] && r[i + 1] == rp[i + 1]);
                } else {
                    assert(r[i] == rp.last() && r[i + 1] == s.last());
                }
            }
        }
    }
}

/// No two adjacent entries of a dependency list are equal.
pub proof fn lemma_dependencies_adjacent_distinct(table: Seq<RawImportModel>)
    ensures
        forall|i: int|
            0 <= i < dependency_names(table).len() - 1 ==> #[trigger] dependency_names(table)[i]
                != dependency_names(table)[i + 1],
{
    lemma_run_length_dedup_adjacent(table.map_values(|e: RawImportModel| lossy_utf8(e.library)));
}

/// What `Dependency::read` yields for these bytes: the run-length
/// deduplicated library names of the import table, or the walk's error.
pub open spec fn deps_result(data: Seq<u8>) -> Result<Seq<Seq<char>>, BinError> {
    match crate::parse::import_table_of(data) {
        Ok(t) => Ok(dependency_names(t)),
        Err(e) => Err(e),
    }
}

impl Dependency {
    /// Read the dependency list of a binary: its import table's library
    /// names, in first-occurrence order, compressed by runs.
    pub fn read(data: &Vec<u8>) -> (r: Result<Vec<Dependency>, BinError>)
        ensures
            match (r, deps_result(data@)) {
                (Ok(v), Ok(m)) => v@.map_values(|d: Dependency| d@) == m,
                (Err(a), Err(b)) => a == b,
                _ => false,
            },
    {
        let entries = match crate::parse::read_import_table(data) {
            Ok(t) => t,
            Err(e) => {
                return Err(e);
            },
        };
        Ok(Dependency::from_table(&entries))
    }

    /// Walk a raw import table in order and emit one dependency each time
    /// the library name differs from the immediately preceding entry's.
    ///
    /// This is a run-length deduplication, not a set deduplication: a
    /// library whose imports are interleaved with another's appears once
    /// per run.
    pub fn from_table(entries: &Vec<RawImport>) -> (r: Vec<Dependency>)
        ensures
            r@.map_values(|d: Dependency| d@) == dependency_names(
                entries@.map_values(|e: RawImport| e@),
            ),
    {
        let ghost names = entries@.map_values(|e: RawImport| e@).map_values(
            |e: RawImportModel| lossy_utf8(e.library),
        );
        let mut out: Vec<Dependency> = Vec::new();
        let mut last: Option<String> = None;
        let mut i: usize = 0;
        while i < entries.len()
            invariant
                i <= entries@.len(),
                names == entries@.map_values(|e: RawImport| e@).map_values(
                    |e: RawImportModel| lossy_utf8(e.library),
                ),
                names.len() == entries@.len(),
                out@.map_values(|d: Dependency| d@) == run_length_dedup(names.take(i as int)),
                match last {
                    Option::None => i == 0,
                    Option::Some(s) => i > 0 && s@ == names[i as int - 1],
                },
            decreases entries@.len() - i,
        {
            let lib = utf8_lossy(&entries[i].library);
            assert(lib@ == names[i as int]);
            let ghost libv = lib@;
            let ghost pre = names.take(i as int);
            let ghost cur = names.take(i as int + 1);
            let ghost prevmap = out@.map_values(|d: Dependency| d@);
            let fresh = match &last {
                Option::None => true,
                Option::Some(prev) => !(*prev == lib),
            };
            proof {
                assert(cur.drop_last() =~= pre);
                assert(cur.last() == names[i as int]);
                if i > 0 {
                    assert(pre.last() == names[i as int - 1]);
                }
            }
            if fresh {
                last = Some(lib.clone());
                out.push(Dependency { library: lib });
                proof {
                    assert(out@.map_values(|d: Dependency| d@) =~= prevmap.push(libv));
                    if i == 0 {
                        assert(run_length_dedup(cur) == cur);
                        assert(prevmap.push(libv) =~= cur);
                    } else {
                        assert(run_length_dedup(cur) == run_length_dedup(pre).push(
                            names[i as int],
                        ));
                    }
                }
            } else {
                last = Some(lib);
                proof {
                    assert(run_length_dedup(cur) == run_length_dedup(pre));
                }
            }
            i = i + 1;
        }
        proof {
            assert(names.take(entries@.len() as int) =~= names);
        }
        out
    }
}

} // verus!
