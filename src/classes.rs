use vstd::prelude::*;

use itertools::Itertools;

use crate::felt::Felt;
use crate::model::{DeclaredClass, DeployedContract, StateDiff, StateUpdate};

verus! {

/// The class hashes that a diff refers to, in order: those of the deployed
/// contracts, then those of the declared classes. Duplicates are kept.
pub open spec fn referenced_classes(d: StateDiff) -> Seq<Felt> {
    d.deployed_contracts@.map_values(|c: DeployedContract| c.class_hash)
        + d.declared_classes@.map_values(|c: DeclaredClass| c.class_hash)
}

/// `s` without its repeated elements: each element stays where it first
/// occurs.
pub open spec fn dedup_first(s: Seq<Felt>) -> Seq<Felt>
    decreases s.len(),
{
    if s.len() == 0 {
        Seq::empty()
    } else {
        let p = dedup_first(s.drop_last());
        if p.contains(s.last()) {
            p
        } else {
            p.push(s.last())
        }
    }
}

/// The candidates among the first `n` whose flag in `stored` is false, in
/// order.
pub open spec fn missing_upto(cands: Seq<Felt>, stored: Seq<bool>, n: int) -> Seq<Felt>
    decreases n,
{
    if n <= 0 {
        Seq::empty()
    } else {
        let p = missing_upto(cands, stored, n - 1);
        if stored[n - 1] {
            p
        } else {
            p.push(cands[n - 1])
        }
    }
}

/// The candidates that are not stored locally (`stored[i]` tells whether
/// `cands[i]` is).
pub open spec fn missing_of(cands: Seq<Felt>, stored: Seq<bool>) -> Seq<Felt> {
    missing_upto(cands, stored, cands.len() as int)
}

/// The classes to download: every candidate when there is no local block to
/// look them up in, else those not stored there.
pub open spec fn class_gap_of(cands: Seq<Felt>, stored: Option<Seq<bool>>) -> Seq<Felt> {
    match stored {
        None => cands,
        Some(s) => missing_of(cands, s),
    }
}

proof fn lemma_push_contains(p: Seq<Felt>, y: Felt)
    ensures
        forall|x: Felt| #[trigger] p.push(y).contains(x) <==> (p.contains(x) || x == y),
{
    let q = p.push(y);
    assert forall|x: Felt| #[trigger] q.contains(x) <==> (p.contains(x) || x == y) by {
        if q.contains(x) {
            let i = choose|i: int| 0 <= i < q.len() && q[i] == x;
            if i < p.len() {
                assert(p[i] == x);
            }
        }
        if p.contains(x) {
            let i = choose|i: int| 0 <= i < p.len() && p[i] == x;
            assert(q[i] == x);
        }
        if x == y {
            assert(q[p.len() as int] == x);
        }
    }
}

proof fn lemma_dedup_first(s: Seq<Felt>)
    ensures
        dedup_first(s).no_duplicates(),
        forall|x: Felt| #[trigger] dedup_first(s).contains(x) <==> s.contains(x),
    decreases s.len(),
{
    if s.len() > 0 {
        let t = s.drop_last();
        lemma_dedup_first(t);
        assert(s =~= t.push(s.last()));
        lemma_push_contains(t, s.last());
        let p = dedup_first(t);
        lemma_push_contains(p, s.last());
    }
}

proof fn lemma_missing_upto(c: Seq<Felt>, s: Seq<bool>, n: int)
    requires
        0 <= n <= c.len(),
        n <= s.len(),
    ensures
        forall|x: Felt| #[trigger] missing_upto(c, s, n).contains(x) <==> exists|j: int|
            0 <= j < n && c[j] == x && !s[j],
        c.no_duplicates() ==> missing_upto(c, s, n).no_duplicates(),
    decreases n,
{
    if n > 0 {
        lemma_missing_upto(c, s, n - 1);
        let p = missing_upto(c, s, n - 1);
        lemma_push_contains(p, c[n - 1]);
        assert forall|x: Felt| #[trigger] missing_upto(c, s, n).contains(x) <==> exists|j: int|
            0 <= j < n && c[j] == x && !s[j] by {
            if missing_upto(c, s, n).contains(x) {
                if p.contains(x) {
                } else {
                    assert(0 <= n - 1 < n && c[n - 1] == x && !s[n - 1]);
                }
            }
            if exists|j: int| 0 <= j < n && c[j] == x && !s[j] {
                let j = choose|j: int| 0 <= j < n && c[j] == x && !s[j];
                if j < n - 1 {
                    assert(p.contains(x));
                }
            }
        }
        if c.no_duplicates() && !s[n - 1] {
            if p.contains(c[n - 1]) {
                let j = choose|j: int| 0 <= j < n - 1 && c[j] == c[n - 1] && !s[j];
                assert(false);
            }
            let q = p.push(c[n - 1]);
            assert forall|i: int, k: int|
                0 <= i < q.len() && 0 <= k < q.len() && i != k implies q[i] != q[k] by {
                if i < p.len() && k < p.len() {
                } else if i < p.len() {
                    assert(p.contains(q[i]));
                } else if k < p.len() {
                    assert(p.contains(q[k]));
                }
            }
        }
    }
}

/// The classes sent on for a block are exactly those that its state update
/// refers to and that are not stored locally (all of them when no local
/// block is known), each once.
pub proof fn lemma_class_gap_exact(
    d: StateDiff,
    stored: Option<Seq<bool>>,
    is_stored: spec_fn(Felt) -> bool,
)
    requires
        stored matches Some(s) ==> {
            &&& s.len() == dedup_first(referenced_classes(d)).len()
            &&& forall|i: int|
                0 <= i < s.len() ==> s[i] == is_stored(
                    #[trigger] dedup_first(referenced_classes(d))[i],
                )
        },
    ensures
        class_gap_of(dedup_first(referenced_classes(d)), stored).no_duplicates(),
        forall|x: Felt| #[trigger]
            class_gap_of(dedup_first(referenced_classes(d)), stored).contains(x) <==> (
            referenced_classes(d).contains(x) && (stored is Some ==> !is_stored(x))),
{
    let c = dedup_first(referenced_classes(d));
    lemma_dedup_first(referenced_classes(d));
    if let Some(s) = stored {
        lemma_missing_upto(c, s, c.len() as int);
        assert forall|x: Felt| #[trigger] class_gap_of(c, stored).contains(x) <==> (
        referenced_classes(d).contains(x) && !is_stored(x)) by {
            if class_gap_of(c, stored).contains(x) {
                let j = choose|j: int| 0 <= j < c.len() && c[j] == x && !s[j];
                assert(c.contains(x));
            }
            if referenced_classes(d).contains(x) && !is_stored(x) {
                assert(c.contains(x));
                let j = choose|j: int| 0 <= j < c.len() && c[j] == x;
                assert(!s[j]);
            }
        }
    }
}

/// Relies on `Itertools::unique`: it keeps the first of equal items and the
/// order of the rest. Items are compared as the pair of their halves.
#[verifier::external_body]
fn unique_hashes(v: Vec<Felt>) -> (r: Vec<Felt>)
    ensures
        r@ == dedup_first(v@),
{
    v.into_iter().map(|f| (f.hi, f.lo)).unique().map(|(hi, lo)| Felt { hi, lo }).collect()
}

/// Every class hash that the state update refers to, deployed contracts
/// first, each once.
pub fn aggregate_classes(state_update: &StateUpdate) -> (r: Vec<Felt>)
    ensures
        r@ == dedup_first(referenced_classes(state_update.state_diff)),
{
    let deployed = &state_update.state_diff.deployed_contracts;
    let declared = &state_update.state_diff.declared_classes;
    let mut all: Vec<Felt> = Vec::new();
    let mut i: usize = 0;
    while i < deployed.len()
        invariant
            i <= deployed@.len(),
            all@ == deployed@.take(i as int).map_values(|c: DeployedContract| c.class_hash),
        decreases deployed@.len() - i,
    {
        all.push(deployed[i].class_hash);
        i = i + 1;
        assert(all@ =~= deployed@.take(i as int).map_values(|c: DeployedContract| c.class_hash));
    }
    assert(deployed@.take(i as int) =~= deployed@);
    let ghost first = all@;
    let mut j: usize = 0;
    while j < declared.len()
        invariant
            j <= declared@.len(),
            first == deployed@.map_values(|c: DeployedContract| c.class_hash),
            all@ == first + declared@.take(j as int).map_values(|c: DeclaredClass| c.class_hash),
        decreases declared@.len() - j,
    {
        all.push(declared[j].class_hash);
        j = j + 1;
        assert(all@ =~= first + declared@.take(j as int).map_values(
            |c: DeclaredClass| c.class_hash,
        ));
    }
    assert(declared@.take(j as int) =~= declared@);
    assert(all@ =~= referenced_classes(state_update.state_diff));
    unique_hashes(all)
}

/// The candidates that are not stored locally, in order; `stored[i]` tells
/// whether `candidates[i]` is.
pub fn fetch_missing_classes(candidates: &Vec<Felt>, stored: &Vec<bool>) -> (r: Vec<Felt>)
    requires
        stored@.len() == candidates@.len(),
    ensures
        r@ == missing_of(candidates@, stored@),
{
    let mut r: Vec<Felt> = Vec::new();
    let mut i: usize = 0;
    while i < candidates.len()
        invariant
            i <= candidates@.len(),
            stored@.len() == candidates@.len(),
            r@ == missing_upto(candidates@, stored@, i as int),
        decreases candidates@.len() - i,
    {
        if !stored[i] {
            r.push(candidates[i]);
        }
        i = i + 1;
    }
    r
}

/// The classes to download for a block: all candidates when no local block is
/// known to look them up in (`stored` is `None`), else those not stored.
pub fn class_gap(candidates: Vec<Felt>, stored: Option<Vec<bool>>) -> (r: Vec<Felt>)
    requires
        stored matches Some(s) ==> s@.len() == candidates@.len(),
    ensures
        r@ == class_gap_of(
            candidates@,
            match stored {
                Some(s) => Some(s@),
                None => None,
            },
        ),
{
    match stored {
        None => candidates,
        Some(s) => fetch_missing_classes(&candidates, &s),
    }
}

} // verus!
