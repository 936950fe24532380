//! Diagnostics over a catalog: which pairs of entries both match a common
//! probe string, and the broad category that a format's name places it in.
//! Neither affects classification; both are for reviewing the catalog.

use vstd::prelude::*;

use crate::catalog::{Catalog, Definition, definitions_view};
use crate::matcher::{finds_match, regex_finds_match, Matcher};
use crate::text::{
    contains_text, ends_with_text, has_infix, has_prefix, has_suffix, starts_with_text,
};

verus! {

/// The characters of each probe.
pub open spec fn probes_view(ps: Seq<&str>) -> Seq<Seq<char>> {
    ps.map_values(|p: &str| p@)
}

/// Some probe is matched by both patterns `a` and `b`.
pub open spec fn share_probe(a: Seq<char>, b: Seq<char>, probes: Seq<Seq<char>>) -> bool {
    exists|k: int|
        0 <= k < probes.len() && regex_finds_match(a, probes[k]) && regex_finds_match(b, probes[k])
}

/// The name pairs of entry `i` with each later entry before `end` that
/// shares a probe with it, in order.
pub open spec fn overlaps_of(es: Seq<Definition>, probes: Seq<Seq<char>>, i: int, end: int) -> Seq<
    (Seq<char>, Seq<char>),
>
    decreases end - i,
{
    if end <= i + 1 {
        seq![]
    } else {
        let earlier = overlaps_of(es, probes, i, end - 1);
        if share_probe(es[i].1, es[end - 1].1, probes) {
            earlier.push((es[i].0, es[end - 1].0))
        } else {
            earlier
        }
    }
}

/// The overlapping name pairs whose first entry comes before position `n`.
pub open spec fn overlaps_upto(es: Seq<Definition>, probes: Seq<Seq<char>>, n: int) -> Seq<
    (Seq<char>, Seq<char>),
>
    decreases n,
{
    if n <= 0 {
        seq![]
    } else {
        overlaps_upto(es, probes, n - 1) + overlaps_of(es, probes, n - 1, es.len() as int)
    }
}

/// Every pair of entries, earlier one first, that share a probe, ordered by
/// the first entry and then by the second.
pub open spec fn overlaps(es: Seq<Definition>, probes: Seq<Seq<char>>) -> Seq<
    (Seq<char>, Seq<char>),
> {
    overlaps_upto(es, probes, es.len() as int)
}

/// The broad family that a format's name places it in, by the first rule
/// that applies: a prefix `ISO_`, `UNIX_` or `RFC_`; `DATETIME` anywhere;
/// a prefix `TIME_`; a suffix `_TIMESTAMP` (database formats) or
/// `_CALENDAR`; `TZ_` anywhere or a suffix `_TIMEZONE`; otherwise `OTHER`.
pub open spec fn category(name: Seq<char>) -> Seq<char> {
    if has_prefix(name, "ISO_"@) {
        "ISO"@
    } else if has_prefix(name, "UNIX_"@) {
        "UNIX"@
    } else if has_prefix(name, "RFC_"@) {
        "RFC"@
    } else if has_infix(name, "DATETIME"@) {
        "DATETIME"@
    } else if has_prefix(name, "TIME_"@) {
        "TIME"@
    } else if has_suffix(name, "_TIMESTAMP"@) {
        "DATABASE"@
    } else if has_suffix(name, "_CALENDAR"@) {
        "CALENDAR"@
    } else if has_infix(name, "TZ_"@) || has_suffix(name, "_TIMEZONE"@) {
        "TIMEZONE"@
    } else {
        "OTHER"@
    }
}

/// The broad family that the format named `name` belongs to.
pub fn category_of(name: &str) -> (r: &'static str)
    ensures
        r@ == category(name@),
{
    if starts_with_text(name, "ISO_") {
        "ISO"
    } else if starts_with_text(name, "UNIX_") {
        "UNIX"
    } else if starts_with_text(name, "RFC_") {
        "RFC"
    } else if contains_text(name, "DATETIME") {
        "DATETIME"
    } else if starts_with_text(name, "TIME_") {
        "TIME"
    } else if ends_with_text(name, "_TIMESTAMP") {
        "DATABASE"
    } else if ends_with_text(name, "_CALENDAR") {
        "CALENDAR"
    } else if contains_text(name, "TZ_") || ends_with_text(name, "_TIMEZONE") {
        "TIMEZONE"
    } else {
        "OTHER"
    }
}

/// Whether some probe is matched by both `a` and `b`.
fn both_match_a_probe(a: &Matcher, b: &Matcher, probes: &Vec<&str>) -> (r: bool)
    ensures
        r == share_probe(a@, b@, probes_view(probes@)),
{
    let ghost pv = probes_view(probes@);
    let mut k: usize = 0;
    while k < probes.len()
        invariant
            k <= probes.len(),
            pv == probes_view(probes@),
            forall|j: int|
                0 <= j < k ==> !(regex_finds_match(a@, pv[j]) && regex_finds_match(b@, pv[j])),
        decreases probes.len() - k,
    {
        let p = probes[k];
        if finds_match(a, p) && finds_match(b, p) {
            assert(pv[k as int] == p@);
            return true;
        }
        k += 1;
    }
    false
}

impl Catalog {
    /// Every pair of entries whose patterns both match one of `probes`, as
    /// (earlier name, later name), ordered by the earlier entry and then by
    /// the later one.
    pub fn find_overlaps(&self, probes: &Vec<&str>) -> (r: Vec<(&'static str, &'static str)>)
        ensures
            definitions_view(r@) == overlaps(self@, probes_view(probes@)),
    {
        let ghost es = self@;
        let ghost pv = probes_view(probes@);
        let n = self.len();
        let mut r: Vec<(&'static str, &'static str)> = Vec::new();
        let mut i: usize = 0;
        while i < n
            invariant
                n == es.len(),
                es == self@,
                pv == probes_view(probes@),
                i <= n,
                definitions_view(r@) == overlaps_upto(es, pv, i as int),
            decreases n - i,
        {
            let a = self.entry(i);
            let mut j: usize = i + 1;
            while j < n
                invariant
                    n == es.len(),
                    es == self@,
                    pv == probes_view(probes@),
                    i < n,
                    i + 1 <= j <= n,
                    a@ == es[i as int],
                    definitions_view(r@) == overlaps_upto(es, pv, i as int) + overlaps_of(
                        es,
                        pv,
                        i as int,
                        j as int,
                    ),
                decreases n - j,
            {
                let b = self.entry(j);
                let ghost before = definitions_view(r@);
                if both_match_a_probe(&a.matcher, &b.matcher, probes) {
                    r.push((a.name, b.name));
                    assert(definitions_view(r@) =~= before.push((a.name@, b.name@)));
                }
                assert(overlaps_upto(es, pv, i as int) + overlaps_of(es, pv, i as int, j + 1)
                    =~= definitions_view(r@));
                j += 1;
            }
            assert(overlaps_upto(es, pv, i + 1) == overlaps_upto(es, pv, i as int) + overlaps_of(
                es,
                pv,
                i as int,
                n as int,
            ));
            i += 1;
        }
        r
    }
}

/// Every pair of entries that share a probe is reported: for entries at
/// positions `i < j` whose patterns both match some probe, the pair of their
/// names is among the overlaps.
pub proof fn lemma_shared_probe_is_reported(
    es: Seq<Definition>,
    probes: Seq<Seq<char>>,
    i: int,
    j: int,
)
    requires
        0 <= i < j < es.len(),
        share_probe(es[i].1, es[j].1, probes),
    ensures
        overlaps(es, probes).contains((es[i].0, es[j].0)),
{
    lemma_overlaps_of_reports(es, probes, i, j, es.len() as int);
    lemma_overlaps_upto_keeps(es, probes, i, es.len() as int, (es[i].0, es[j].0));
}

proof fn lemma_overlaps_of_reports(
    es: Seq<Definition>,
    probes: Seq<Seq<char>>,
    i: int,
    j: int,
    end: int,
)
    requires
        0 <= i < j < end <= es.len(),
        share_probe(es[i].1, es[j].1, probes),
    ensures
        overlaps_of(es, probes, i, end).contains((es[i].0, es[j].0)),
    decreases end - i,
{
    let earlier = overlaps_of(es, probes, i, end - 1);
    if j == end - 1 {
        assert(overlaps_of(es, probes, i, end).last() == (es[i].0, es[j].0));
    } else {
        lemma_overlaps_of_reports(es, probes, i, j, end - 1);
        let k = choose|k: int| 0 <= k < earlier.len() && earlier[k] == (es[i].0, es[j].0);
        assert(overlaps_of(es, probes, i, end)[k] == earlier[k]);
    }
}

proof fn lemma_overlaps_upto_keeps(
    es: Seq<Definition>,
    probes: Seq<Seq<char>>,
    i: int,
    n: int,
    pair: (Seq<char>, Seq<char>),
)
    requires
        0 <= i < n,
        overlaps_of(es, probes, i, es.len() as int).contains(pair),
    ensures
        overlaps_upto(es, probes, n).contains(pair),
    decreases n,
{
    let before = overlaps_upto(es, probes, n - 1);
    let row = overlaps_of(es, probes, n - 1, es.len() as int);
    if i == n - 1 {
        let k = choose|k: int| 0 <= k < row.len() && row[k] == pair;
        assert((before + row)[before.len() + k] == pair);
    } else {
        lemma_overlaps_upto_keeps(es, probes, i, n - 1, pair);
        let k = choose|k: int| 0 <= k < before.len() && before[k] == pair;
        assert((before + row)[k] == pair);
    }
}

/// Only pairs that share a probe are reported: each reported pair names
/// entries at positions `i < j` whose patterns both match some probe.
pub proof fn lemma_reported_pairs_share_probe(es: Seq<Definition>, probes: Seq<Seq<char>>, k: int)
    requires
        0 <= k < overlaps(es, probes).len(),
    ensures
        exists|i: int, j: int|
            0 <= i < j < es.len() && overlaps(es, probes)[k] == (es[i].0, es[j].0) && share_probe(
                es[i].1,
                es[j].1,
                probes,
            ),
{
    lemma_overlaps_upto_sound(es, probes, es.len() as int, k);
}

proof fn lemma_overlaps_of_sound(
    es: Seq<Definition>,
    probes: Seq<Seq<char>>,
    i: int,
    end: int,
    k: int,
)
    requires
        0 <= i,
        end <= es.len(),
        0 <= k < overlaps_of(es, probes, i, end).len(),
    ensures
        exists|j: int|
            i < j < end && overlaps_of(es, probes, i, end)[k] == (es[i].0, es[j].0)
                && share_probe(es[i].1, es[j].1, probes),
    decreases end - i,
{
    let earlier = overlaps_of(es, probes, i, end - 1);
    if k < earlier.len() {
        lemma_overlaps_of_sound(es, probes, i, end - 1, k);
        let j = choose|j: int|
            i < j < end - 1 && earlier[k] == (es[i].0, es[j].0) && share_probe(
                es[i].1,
                es[j].1,
                probes,
            );
        assert(overlaps_of(es, probes, i, end)[k] == earlier[k]);
    } else {
        assert(overlaps_of(es, probes, i, end)[k] == (es[i].0, es[end - 1].0));
    }
}

proof fn lemma_overlaps_upto_sound(es: Seq<Definition>, probes: Seq<Seq<char>>, n: int, k: int)
    requires
        n <= es.len(),
        0 <= k < overlaps_upto(es, probes, n).len(),
    ensures
        exists|i: int, j: int|
            0 <= i < j < es.len() && overlaps_upto(es, probes, n)[k] == (es[i].0, es[j].0)
                && share_probe(es[i].1, es[j].1, probes),
    decreases n,
{
    let before = overlaps_upto(es, probes, n - 1);
    let row = overlaps_of(es, probes, n - 1, es.len() as int);
    if k < before.len() {
        lemma_overlaps_upto_sound(es, probes, n - 1, k);
        assert((before + row)[k] == before[k]);
    } else {
        lemma_overlaps_of_sound(es, probes, n - 1, es.len() as int, k - before.len());
        assert((before + row)[k] == row[k - before.len()]);
    }
}

} // verus!
