//! The diff engine: compare two record lists of one category as multisets
//! keyed by the records' significant fields.
//!
//! Entries whose key occurs in both lists are matched one-to-one by
//! position and omitted; the rest are reported, removed entries first in
//! the old list's order, then added entries in the new list's order.

use vstd::prelude::*;

use crate::data::dependency::deps_result;
use crate::data::dependency::Dependency;
use crate::data::difference::ChangedData;
use crate::data::difference::Difference;
use crate::data::export::exports_result;
use crate::data::export::Export;
use crate::data::export::ExportModel;
use crate::data::export::ForwardType;
use crate::data::import::imports_result;
use crate::data::import::Import;
use crate::data::import::ImportModel;
use crate::error::BinError;

verus! {

/// A record category the diff engine can compare: each record has a key
/// of significant fields, an executable equality test for it, and a place
/// in `ChangedData`.
pub trait DiffKey: Sized {
    /// The type of the comparison key.
    type Key;

    /// The significant fields of the record.  Fields that merely present
    /// the record (a demangled name) are not part of the key.
    spec fn key(&self) -> Self::Key;

    /// The record's place in a difference entry.
    spec fn changed(self) -> ChangedData;

    /// Whether two records have equal keys.
    fn key_eq(&self, other: &Self) -> (r: bool)
        ensures
            r == (self.key() == other.key()),
    ;

    /// Wrap the record for a difference entry.
    fn into_changed(self) -> (c: ChangedData)
        ensures
            c == self.changed(),
    ;
}

impl DiffKey for Dependency {
    type Key = Seq<char>;

    open spec fn key(&self) -> Seq<char> {
        self.library@
    }

    open spec fn changed(self) -> ChangedData {
        ChangedData::Dependency(self)
    }

    fn key_eq(&self, other: &Self) -> (r: bool) {
        self.library == other.library
    }

    fn into_changed(self) -> (c: ChangedData) {
        ChangedData::Dependency(self)
    }
}

impl DiffKey for Import {
    type Key = (Seq<char>, Seq<char>);

    open spec fn key(&self) -> (Seq<char>, Seq<char>) {
        (self.library@, self.function@)
    }

    open spec fn changed(self) -> ChangedData {
        ChangedData::Import(self)
    }

    fn key_eq(&self, other: &Self) -> (r: bool) {
        self.library == other.library && self.function == other.function
    }

    fn into_changed(self) -> (c: ChangedData) {
        ChangedData::Import(self)
    }
}

impl DiffKey for Export {
    type Key = (Seq<char>, Option<u64>, Option<crate::data::export::TargetModel>);

    open spec fn key(&self) -> (Seq<char>, Option<u64>, Option<crate::data::export::TargetModel>) {
        (
            self.function@,
            self.address,
            match &self.target {
                Some(t) => Some(t@),
                None => None,
            },
        )
    }

    open spec fn changed(self) -> ChangedData {
        ChangedData::Export(self)
    }

    fn key_eq(&self, other: &Self) -> (r: bool) {
        let address_eq = match (&self.address, &other.address) {
            (Some(a), Some(b)) => *a == *b,
            (None, None) => true,
            _ => false,
        };
        let target_eq = match (&self.target, &other.target) {
            (Some(a), Some(b)) => a.library == b.library && match (&a.forward, &b.forward) {
                (ForwardType::Name(x), ForwardType::Name(y)) => *x == *y,
                (ForwardType::Ordinal(x), ForwardType::Ordinal(y)) => *x == *y,
                _ => false,
            },
            (None, None) => true,
            _ => false,
        };
        self.function == other.function && address_eq && target_eq
    }

    fn into_changed(self) -> (c: ChangedData) {
        ChangedData::Export(self)
    }
}

/// How often `k` occurs as a key in `s`.
pub open spec fn key_count<T: DiffKey>(s: Seq<T>, k: T::Key) -> nat
    decreases s.len(),
{
    if s.len() == 0 {
        0
    } else {
        key_count(s.drop_last(), k) + if s.last().key() == k {
            1nat
        } else {
            0nat
        }
    }
}

/// The entries of `old_items` that the one-to-one key matching against
/// `new_items` leaves unmatched, in their original order: entry `i` stays
/// exactly when the entries with its key strictly before `i` already use
/// up that key's whole count in `new_items`.
pub open spec fn removed_of<T: DiffKey>(old_items: Seq<T>, new_items: Seq<T>) -> Seq<T>
    decreases old_items.len(),
{
    if old_items.len() == 0 {
        Seq::empty()
    } else {
        let pre = old_items.drop_last();
        let rest = removed_of(pre, new_items);
        if key_count(pre, old_items.last().key()) >= key_count(
            new_items,
            old_items.last().key(),
        ) {
            rest.push(old_items.last())
        } else {
            rest
        }
    }
}

/// The removed entries of one category, wrapped for reporting.
pub open spec fn removed_block<T: DiffKey>(old_items: Seq<T>, new_items: Seq<T>) -> Seq<
    Difference,
> {
    removed_of(old_items, new_items).map_values(|t: T| Difference::Removed(t.changed()))
}

/// The added entries of one category, wrapped for reporting.
pub open spec fn added_block<T: DiffKey>(old_items: Seq<T>, new_items: Seq<T>) -> Seq<
    Difference,
> {
    removed_of(new_items, old_items).map_values(|t: T| Difference::Added(t.changed()))
}

/// The diff of one category: removed entries first, in the old list's
/// order, then added entries, in the new list's order.
pub open spec fn diff_of<T: DiffKey>(old_items: Seq<T>, new_items: Seq<T>) -> Seq<Difference> {
    removed_block(old_items, new_items) + added_block(old_items, new_items)
}

/// Count the entries among the first `upto` of `v` whose key equals
/// `x`'s.
fn count_key_upto<T: DiffKey>(v: &Vec<T>, upto: usize, x: &T) -> (c: usize)
    requires
        upto <= v@.len(),
    ensures
        c == key_count(v@.take(upto as int), x.key()),
{
    let mut c: usize = 0;
    let mut j: usize = 0;
    while j < upto
        invariant
            j <= upto,
            upto <= v@.len(),
            c <= j,
            c == key_count(v@.take(j as int), x.key()),
        decreases upto - j,
    {
        let hit = v[j].key_eq(x);
        proof {
            assert(v@.take(j as int + 1).drop_last() =~= v@.take(j as int));
            assert(v@.take(j as int + 1).last() == v@[j as int]);
        }
        if hit {
            c = c + 1;
        }
        j = j + 1;
    }
    c
}

/// Whether the entry at `k` of `s` is left unmatched against `other`.
pub open spec fn is_unmatched<T: DiffKey>(s: Seq<T>, other: Seq<T>, k: int) -> bool {
    key_count(s.take(k), s[k].key()) >= key_count(other, s[k].key())
}

/// Mark the entries of `a` that the matching against `b` leaves
/// unmatched.
fn mark_unmatched<T: DiffKey>(a: &Vec<T>, b: &Vec<T>) -> (m: Vec<bool>)
    ensures
        m@.len() == a@.len(),
        forall|k: int| 0 <= k < a@.len() ==> #[trigger] m@[k] == is_unmatched(a@, b@, k),
{
    let mut m: Vec<bool> = Vec::new();
    let mut i: usize = 0;
    while i < a.len()
        invariant
            i <= a@.len(),
            m@.len() == i,
            forall|k: int| 0 <= k < i ==> #[trigger] m@[k] == is_unmatched(a@, b@, k),
        decreases a@.len() - i,
    {
        let prior = count_key_upto(a, i, &a[i]);
        let available = count_key_upto(b, b.len(), &a[i]);
        proof {
            assert(b@.take(b@.len() as int) =~= b@);
        }
        m.push(prior >= available);
        i = i + 1;
    }
    m
}

/// The marked entries of `s`, in order.
pub open spec fn select_marked_of<T>(s: Seq<T>, m: Seq<bool>) -> Seq<T>
    decreases s.len(),
{
    if s.len() == 0 {
        Seq::empty()
    } else {
        let rest = select_marked_of(s.drop_last(), m.drop_last());
        if m.last() {
            rest.push(s.last())
        } else {
            rest
        }
    }
}

/// Keep the marked entries of `v`, in order.
fn select_marked<T>(v: Vec<T>, m: &Vec<bool>) -> (r: Vec<T>)
    requires
        v@.len() == m@.len(),
    ensures
        r@ == select_marked_of(v@, m@),
{
    let ghost v0 = v@;
    proof {
        assert(v.len() == v0.len());
    }
    let mut rest = v;
    let mut r: Vec<T> = Vec::new();
    let mut i: usize = 0;
    while rest.len() > 0
        invariant
            v0.len() <= usize::MAX,
            i + rest@.len() == v0.len(),
            rest@ == v0.skip(i as int),
            m@.len() == v0.len(),
            r@ == select_marked_of(v0.take(i as int), m@.take(i as int)),
        decreases rest@.len(),
    {
        let x = rest.remove(0);
        proof {
            assert(v0.skip(i as int).remove(0) =~= v0.skip(i as int + 1));
            assert(v0.skip(i as int)[0] == v0[i as int]);
            assert(v0.take(i as int + 1).drop_last() =~= v0.take(i as int));
            assert(m@.take(i as int + 1).drop_last() =~= m@.take(i as int));
            assert(v0.take(i as int + 1).last() == v0[i as int]);
            assert(m@.take(i as int + 1).last() == m@[i as int]);
        }
        if m[i] {
            r.push(x);
        }
        i = i + 1;
    }
    proof {
        assert(v0.take(v0.len() as int) =~= v0);
        assert(m@.take(m@.len() as int) =~= m@);
    }
    r
}

/// Key counts only grow along prefixes.
proof fn lemma_key_count_take_mono<T: DiffKey>(s: Seq<T>, k: T::Key, a: int, b: int)
    requires
        0 <= a <= b <= s.len(),
    ensures
        key_count(s.take(a), k) <= key_count(s.take(b), k),
    decreases b - a,
{
    if a < b {
        lemma_key_count_take_mono(s, k, a, b - 1);
        assert(s.take(b).drop_last() =~= s.take(b - 1));
    }
}

/// The selection by the unmatched marks is exactly `removed_of`.
proof fn lemma_select_is_removed<T: DiffKey>(s: Seq<T>, other: Seq<T>, m: Seq<bool>)
    requires
        m.len() == s.len(),
        forall|k: int| 0 <= k < s.len() ==> #[trigger] m[k] == is_unmatched(s, other, k),
    ensures
        select_marked_of(s, m) == removed_of(s, other),
    decreases s.len(),
{
    if s.len() > 0 {
        let pre = s.drop_last();
        let mp = m.drop_last();
        assert forall|k: int| 0 <= k < pre.len() implies #[trigger] mp[k] == is_unmatched(
            pre,
            other,
            k,
        ) by {
            assert(mp[k] == m[k]);
            assert(pre[k] == s[k]);
            assert(pre.take(k) =~= s.take(k));
        }
        lemma_select_is_removed(pre, other, mp);
        assert(s.take(s.len() - 1) =~= pre);
        assert(m.last() == is_unmatched(s, other, s.len() - 1));
    }
}

/// Split two record lists of one category into their removed and added
/// entries, matching equal keys one-to-one by position.
pub fn diff_split<T: DiffKey>(old_items: Vec<T>, new_items: Vec<T>) -> (r: (Vec<T>, Vec<T>))
    ensures
        r.0@ == removed_of(old_items@, new_items@),
        r.1@ == removed_of(new_items@, old_items@),
{
    let ghost o = old_items@;
    let ghost n = new_items@;
    let stale = mark_unmatched(&old_items, &new_items);
    let fresh = mark_unmatched(&new_items, &old_items);
    let removed = select_marked(old_items, &stale);
    let added = select_marked(new_items, &fresh);
    proof {
        lemma_select_is_removed(o, n, stale@);
        lemma_select_is_removed(n, o, fresh@);
    }
    (removed, added)
}

/// Diff two record lists of one category: entries present only in
/// `old_items` are reported as removed, in their original order, then
/// entries present only in `new_items` as added, in theirs; entries with
/// equal keys on both sides are matched one-to-one and omitted, so a
/// surviving duplicate shows no difference.
pub fn diff<T: DiffKey>(old_items: Vec<T>, new_items: Vec<T>) -> (r: Vec<Difference>)
    ensures
        r@ == diff_of(old_items@, new_items@),
{
    let ghost o = old_items@;
    let ghost n = new_items@;
    let (removed, added) = diff_split(old_items, new_items);
    let ghost r0 = removed@;
    let ghost a0 = added@;
    proof {
        assert(removed.len() == r0.len());
        assert(added.len() == a0.len());
    }
    let mut out: Vec<Difference> = Vec::new();
    let mut rest = removed;
    let mut i: usize = 0;
    while rest.len() > 0
        invariant
            r0.len() <= usize::MAX,
            i + rest@.len() == r0.len(),
            rest@ == r0.skip(i as int),
            out@.len() == i,
            forall|k: int|
                0 <= k < i ==> #[trigger] out@[k] == Difference::Removed(r0[k].changed()),
        decreases rest@.len(),
    {
        let x = rest.remove(0);
        proof {
            assert(r0.skip(i as int).remove(0) =~= r0.skip(i as int + 1));
            assert(r0.skip(i as int)[0] == r0[i as int]);
        }
        out.push(Difference::Removed(x.into_changed()));
        i = i + 1;
    }
    let mut rest2 = added;
    let mut j: usize = 0;
    while rest2.len() > 0
        invariant
            a0.len() <= usize::MAX,
            r0.len() <= usize::MAX,
            j + rest2@.len() == a0.len(),
            rest2@ == a0.skip(j as int),
            out@.len() == r0.len() + j,
            forall|k: int|
                0 <= k < r0.len() ==> #[trigger] out@[k] == Difference::Removed(r0[k].changed()),
            forall|k: int|
                r0.len() <= k < r0.len() + j ==> #[trigger] out@[k] == Difference::Added(
                    a0[k - r0.len()].changed(),
                ),
        decreases rest2@.len(),
    {
        let x = rest2.remove(0);
        proof {
            assert(a0.skip(j as int).remove(0) =~= a0.skip(j as int + 1));
            assert(a0.skip(j as int)[0] == a0[j as int]);
        }
        out.push(Difference::Added(x.into_changed()));
        j = j + 1;
    }
    proof {
        assert(out@ =~= diff_of(o, n));
    }
    out
}

/// Reflexivity: no entry of a list is unmatched against the list itself.
proof fn lemma_removed_take_empty<T: DiffKey>(s: Seq<T>, i: int)
    requires
        0 <= i <= s.len(),
    ensures
        removed_of(s.take(i), s) == Seq::<T>::empty(),
    decreases i,
{
    if i > 0 {
        lemma_removed_take_empty(s, i - 1);
        let cur = s.take(i);
        assert(cur.drop_last() =~= s.take(i - 1));
        assert(cur.last() == s[i - 1]);
        let k = s[i - 1].key();
        assert(key_count(s.take(i), k) == key_count(s.take(i - 1), k) + 1);
        lemma_key_count_take_mono(s, k, i, s.len() as int);
        assert(s.take(s.len() as int) =~= s);
    }
}

/// Diffing a list against itself yields nothing.
pub proof fn lemma_diff_reflexive<T: DiffKey>(s: Seq<T>)
    ensures
        diff_of(s, s) == Seq::<Difference>::empty(),
{
    lemma_removed_take_empty(s, s.len() as int);
    assert(s.take(s.len() as int) =~= s);
    assert(diff_of(s, s) =~= Seq::<Difference>::empty());
}

/// Exchange `Added` and `Removed` in every entry.
pub open spec fn swap_marks(d: Seq<Difference>) -> Seq<Difference> {
    d.map_values(
        |x: Difference|
            match x {
                Difference::Added(c) => Difference::Removed(c),
                Difference::Removed(c) => Difference::Added(c),
            },
    )
}

/// Antisymmetry: diffing the two lists in the opposite order yields the
/// same entries with `Added` and `Removed` exchanged and the two blocks
/// exchanged.  Within each block the order follows that block's input
/// list, so the exchange is block-wise, not an element reversal.
pub proof fn lemma_diff_antisymmetric<T: DiffKey>(a: Seq<T>, b: Seq<T>)
    ensures
        diff_of(b, a) == swap_marks(added_block(a, b) + removed_block(a, b)),
{
    assert(diff_of(b, a) =~= swap_marks(added_block(a, b) + removed_block(a, b)));
}

/// Antisymmetry at multiset level: reversing and relabelling one diff
/// yields exactly the entries of the diff with the lists exchanged; only
/// the order within the report differs, and a reversal does not change a
/// multiset.
pub proof fn lemma_diff_antisymmetric_multiset<T: DiffKey>(a: Seq<T>, b: Seq<T>)
    ensures
        diff_of(b, a).to_multiset() == swap_marks(diff_of(a, b)).reverse().to_multiset(),
{
    broadcast use vstd::multiset::group_multiset_axioms;

    lemma_diff_antisymmetric(a, b);
    let rb = removed_block(a, b);
    let ab = added_block(a, b);
    assert(swap_marks(ab + rb) =~= swap_marks(ab) + swap_marks(rb));
    assert(swap_marks(rb + ab) =~= swap_marks(rb) + swap_marks(ab));
    vstd::seq_lib::lemma_multiset_commutative(swap_marks(ab), swap_marks(rb));
    vstd::seq_lib::lemma_multiset_commutative(swap_marks(rb), swap_marks(ab));
    swap_marks(diff_of(a, b)).lemma_reverse_to_multiset();
    assert(swap_marks(ab).to_multiset().add(swap_marks(rb).to_multiset()) =~= swap_marks(
        rb,
    ).to_multiset().add(swap_marks(ab).to_multiset()));
}

/// The three relation lists of one binary, as the diff engine takes them.
pub struct Relations {
    pub dependencies: Vec<Dependency>,
    pub imports: Vec<Import>,
    pub exports: Vec<Export>,
}

impl Relations {
    /// Read all three relation lists of one binary, failing on the first
    /// error, in the order dependencies, imports, exports.
    pub fn read(data: &Vec<u8>) -> (r: Result<Relations, BinError>)
        ensures
            match r {
                Ok(rel) => {
                    &&& deps_result(data@) matches Ok(m) && rel.dependencies@.map_values(
                        |d: Dependency| d@,
                    ) == m
                    &&& imports_result(data@) matches Ok(m) && rel.imports@.map_values(
                        |x: Import| x@,
                    ) == m
                    &&& exports_result(data@) matches Ok(m) && rel.exports@.map_values(
                        |x: Export| x@,
                    ) == m
                },
                Err(e) => {
                    ||| deps_result(data@) == Err::<Seq<Seq<char>>, BinError>(e)
                    ||| (deps_result(data@) is Ok && imports_result(data@) == Err::<
                        Seq<ImportModel>,
                        BinError,
                    >(e))
                    ||| (deps_result(data@) is Ok && imports_result(data@) is Ok
                        && exports_result(data@) == Err::<Seq<ExportModel>, BinError>(e))
                },
            },
    {
        let dependencies = match Dependency::read(data) {
            Ok(v) => v,
            Err(e) => {
                return Err(e);
            },
        };
        let imports = match Import::read(data) {
            Ok(v) => v,
            Err(e) => {
                return Err(e);
            },
        };
        let exports = match Export::read(data) {
            Ok(v) => v,
            Err(e) => {
                return Err(e);
            },
        };
        Ok(Relations { dependencies, imports, exports })
    }
}

/// The diff of two binaries' relations: the three categories are compared
/// independently and reported in a fixed order, dependencies, then
/// imports, then exports.
pub open spec fn relations_diff(old_side: Relations, new_side: Relations) -> Seq<Difference> {
    diff_of(old_side.dependencies@, new_side.dependencies@) + diff_of(
        old_side.imports@,
        new_side.imports@,
    ) + diff_of(old_side.exports@, new_side.exports@)
}

/// Diff all three relation categories of two binaries, in the fixed
/// category order: dependencies, then imports, then exports.
pub fn diff_all(old_side: Relations, new_side: Relations) -> (r: Vec<Difference>)
    ensures
        r@ == relations_diff(old_side, new_side),
{
    let Relations { dependencies: od, imports: oi, exports: oe } = old_side;
    let Relations { dependencies: nd, imports: ni, exports: ne } = new_side;
    let mut out = diff(od, nd);
    let mut from_imports = diff(oi, ni);
    let mut from_exports = diff(oe, ne);
    out.append(&mut from_imports);
    out.append(&mut from_exports);
    out
}

} // verus!
