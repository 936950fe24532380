//! The format catalog: built once from a list of definitions, it keeps each
//! definition that can be used and sets aside, with the reason, each one that
//! cannot. It then classifies strings against the kept entries.

use vstd::prelude::*;

use crate::formats::{format_definitions, format_list};
use crate::matcher::{compile, finds_match, regex_compiles, regex_finds_match, Matcher};
use crate::text::same_text;

verus! {

/// A format as its name and its pattern.
pub type Definition = (Seq<char>, Seq<char>);

/// The characters of each (name, pattern) pair.
pub open spec fn definitions_view(ds: Seq<(&'static str, &'static str)>) -> Seq<Definition> {
    ds.map_values(|d: (&'static str, &'static str)| (d.0@, d.1@))
}

/// The characters of each string.
pub open spec fn texts_view(ss: Seq<&'static str>) -> Seq<Seq<char>> {
    ss.map_values(|s: &'static str| s@)
}

/// The names of the formats, in order.
pub open spec fn names_of(es: Seq<Definition>) -> Seq<Seq<char>> {
    es.map_values(|e: Definition| e.0)
}

/// No two formats share a name.
pub open spec fn has_unique_names(es: Seq<Definition>) -> bool {
    forall|i: int, j: int| 0 <= i < j < es.len() ==> es[i].0 != es[j].0
}

/// The definitions of the catalog that every build starts from.
pub open spec fn format_table() -> Seq<Definition> {
    definitions_view(format_list())
}

/// Why a definition was left out of a catalog.
#[derive(Clone, Copy, Debug, PartialEq, Eq, Structural)]
pub enum RejectReason {
    /// An entry of the same name was already kept.
    DuplicateName,
    /// The pattern is not a valid expression.
    InvalidPattern,
}

/// Whether `d` is left out when the entries in `kept` were kept before it,
/// and why.
pub open spec fn rejection_of(kept: Seq<Definition>, d: Definition) -> Option<RejectReason> {
    if names_of(kept).contains(d.0) {
        Some(RejectReason::DuplicateName)
    } else if !regex_compiles(d.1) {
        Some(RejectReason::InvalidPattern)
    } else {
        None
    }
}

/// The entries that a catalog built from `defs` keeps, in order.
pub open spec fn usable(defs: Seq<Definition>) -> Seq<Definition>
    decreases defs.len(),
{
    if defs.len() == 0 {
        seq![]
    } else {
        let kept = usable(defs.drop_last());
        if rejection_of(kept, defs.last()) is Some {
            kept
        } else {
            kept.push(defs.last())
        }
    }
}

/// The definitions that a catalog built from `defs` leaves out, in order,
/// each with its reason.
pub open spec fn rejected(defs: Seq<Definition>) -> Seq<(Definition, RejectReason)>
    decreases defs.len(),
{
    if defs.len() == 0 {
        seq![]
    } else {
        let earlier = rejected(defs.drop_last());
        match rejection_of(usable(defs.drop_last()), defs.last()) {
            Some(why) => earlier.push((defs.last(), why)),
            None => earlier,
        }
    }
}

/// The names of the entries whose pattern matches `input`, in catalog order.
pub open spec fn matching_names(es: Seq<Definition>, input: Seq<char>) -> Seq<Seq<char>>
    decreases es.len(),
{
    if es.len() == 0 {
        seq![]
    } else {
        let earlier = matching_names(es.drop_last(), input);
        if regex_finds_match(es.last().1, input) {
            earlier.push(es.last().0)
        } else {
            earlier
        }
    }
}

/// The names of the entries whose flag in `hits` is set, in order.
pub open spec fn flagged(es: Seq<Definition>, hits: Seq<bool>) -> Seq<Seq<char>>
    decreases es.len(),
{
    if es.len() == 0 || hits.len() != es.len() {
        seq![]
    } else {
        let earlier = flagged(es.drop_last(), hits.drop_last());
        if hits.last() {
            earlier.push(es.last().0)
        } else {
            earlier
        }
    }
}

/// A usable catalog entry: a name and its compiled pattern.
pub struct CatalogEntry {
    pub name: &'static str,
    pub matcher: Matcher,
}

impl View for CatalogEntry {
    type V = Definition;

    open spec fn view(&self) -> Definition {
        (self.name@, self.matcher@)
    }
}

/// A definition that a catalog left out.
#[derive(Clone, Copy, Debug)]
pub struct Rejection {
    pub name: &'static str,
    pub pattern: &'static str,
    pub reason: RejectReason,
}

impl View for Rejection {
    type V = (Definition, RejectReason);

    open spec fn view(&self) -> (Definition, RejectReason) {
        ((self.name@, self.pattern@), self.reason)
    }
}

/// The views of a sequence of entries.
pub open spec fn entries_view(es: Seq<CatalogEntry>) -> Seq<Definition> {
    es.map_values(|e: CatalogEntry| e@)
}

/// The views of a sequence of rejections.
pub open spec fn rejections_view(rs: Seq<Rejection>) -> Seq<(Definition, RejectReason)> {
    rs.map_values(|r: Rejection| r@)
}

/// An immutable catalog of named formats.
pub struct Catalog {
    entries: Vec<CatalogEntry>,
    rejections: Vec<Rejection>,
}

impl View for Catalog {
    type V = Seq<Definition>;

    /// The usable entries, in catalog order.
    closed spec fn view(&self) -> Seq<Definition> {
        entries_view(self.entries@)
    }
}

/// Searches `entries` for one named `name`.
fn find_entry(entries: &Vec<CatalogEntry>, name: &str) -> (r: Option<usize>)
    ensures
        match r {
            Some(k) => k < entries.len() && entries@[k as int].name@ == name@,
            None => !names_of(entries_view(entries@)).contains(name@),
        },
{
    let mut i: usize = 0;
    while i < entries.len()
        invariant
            i <= entries.len(),
            forall|j: int| 0 <= j < i ==> entries@[j].name@ != name@,
        decreases entries.len() - i,
    {
        if same_text(entries[i].name, name) {
            return Some(i);
        }
        i += 1;
    }
    assert forall|j: int| 0 <= j < entries.len() implies names_of(entries_view(entries@))[j]
        != name@ by {}
    None
}

impl Catalog {
    /// The definitions left out, in the order they were given, each with its
    /// reason.
    pub closed spec fn rejections_spec(&self) -> Seq<(Definition, RejectReason)> {
        rejections_view(self.rejections@)
    }

    /// Every catalog keeps at most one entry of each name.
    pub open spec fn wf(&self) -> bool {
        has_unique_names(self@)
    }

    /// Builds a catalog from `defs`, in order: a definition whose name an
    /// earlier kept entry already has, or whose pattern does not compile, is
    /// left out and recorded; every other one is kept.
    pub fn from_definitions(defs: &Vec<(&'static str, &'static str)>) -> (r: Catalog)
        ensures
            r@ == usable(definitions_view(defs@)),
            r.rejections_spec() == rejected(definitions_view(defs@)),
            r.wf(),
    {
        let ghost dv = definitions_view(defs@);
        let mut entries: Vec<CatalogEntry> = Vec::new();
        let mut rejections: Vec<Rejection> = Vec::new();
        let mut i: usize = 0;
        while i < defs.len()
            invariant
                i <= defs.len(),
                dv == definitions_view(defs@),
                entries_view(entries@) == usable(dv.take(i as int)),
                rejections_view(rejections@) == rejected(dv.take(i as int)),
            decreases defs.len() - i,
        {
            let (name, pattern) = defs[i];
            let ghost before = dv.take(i as int);
            assert(dv.take(i + 1).drop_last() =~= before);
            assert(dv.take(i + 1).last() == (name@, pattern@));
            match find_entry(&entries, name) {
                Some(_) => {
                    assert(names_of(usable(before)).contains(name@)) by {
                        let k = choose|k: int|
                            0 <= k < entries.len() && entries@[k].name@ == name@;
                        assert(names_of(usable(before))[k] == name@);
                    }
                    rejections.push(Rejection { name, pattern, reason: RejectReason::DuplicateName });
                },
                None => match compile(pattern) {
                    Ok(matcher) => {
                        entries.push(CatalogEntry { name, matcher });
                    },
                    Err(_) => {
                        rejections.push(
                            Rejection { name, pattern, reason: RejectReason::InvalidPattern },
                        );
                    },
                },
            }
            assert(entries_view(entries@) =~= usable(dv.take(i + 1)));
            assert(rejections_view(rejections@) =~= rejected(dv.take(i + 1)));
            i += 1;
        }
        assert(dv.take(defs.len() as int) =~= dv);
        proof {
            lemma_usable_names_unique(dv);
        }
        Catalog { entries, rejections }
    }

    /// Builds the catalog of all known timestamp formats.
    pub fn build() -> (r: Catalog)
        ensures
            r@ == usable(format_table()),
            r.rejections_spec() == rejected(format_table()),
            r.wf(),
    {
        let defs = format_definitions();
        Catalog::from_definitions(&defs)
    }

    /// The pattern of the entry named `name`, if the catalog has one.
    pub fn get(&self, name: &str) -> (r: Option<&'static str>)
        ensures
            match r {
                Some(p) => exists|k: int| 0 <= k < self@.len() && self@[k] == (name@, p@),
                None => !names_of(self@).contains(name@),
            },
    {
        match find_entry(&self.entries, name) {
            Some(k) => {
                assert(self@[k as int] == self.entries@[k as int]@);
                Some(self.entries[k].matcher.pattern())
            },
            None => None,
        }
    }

    /// All usable entries as (name, pattern) pairs, in catalog order.
    pub fn entries(&self) -> (r: Vec<(&'static str, &'static str)>)
        ensures
            definitions_view(r@) == self@,
    {
        let mut r: Vec<(&'static str, &'static str)> = Vec::new();
        let mut i: usize = 0;
        while i < self.entries.len()
            invariant
                i <= self.entries.len(),
                r.len() == i,
                definitions_view(r@) == self@.take(i as int),
            decreases self.entries.len() - i,
        {
            let e = &self.entries[i];
            assert(self@[i as int] == e@);
            r.push((e.name, e.matcher.pattern()));
            assert(definitions_view(r@) =~= self@.take(i + 1));
            i += 1;
        }
        assert(self@.take(i as int) =~= self@);
        r
    }

    /// The definitions that this catalog left out, in the order they were
    /// given.
    pub fn rejections(&self) -> (r: Vec<Rejection>)
        ensures
            rejections_view(r@) == self.rejections_spec(),
    {
        let mut r: Vec<Rejection> = Vec::new();
        let mut i: usize = 0;
        while i < self.rejections.len()
            invariant
                i <= self.rejections.len(),
                r.len() == i,
                r@ == self.rejections@.take(i as int),
            decreases self.rejections.len() - i,
        {
            let x = self.rejections[i];
            r.push(x);
            assert(r@ =~= self.rejections@.take(i + 1));
            i += 1;
        }
        assert(self.rejections@.take(i as int) =~= self.rejections@);
        r
    }

    /// The usable entry at position `i`.
    pub fn entry(&self, i: usize) -> (r: &CatalogEntry)
        requires
            i < self@.len(),
        ensures
            r@ == self@[i as int],
    {
        &self.entries[i]
    }

    /// The number of usable entries.
    pub fn len(&self) -> (r: usize)
        ensures
            r == self@.len(),
    {
        self.entries.len()
    }

    /// The names of the entries whose flag in `hits` is set, in catalog
    /// order; `hits` holds one flag per entry.
    pub fn flagged_names(&self, hits: &Vec<bool>) -> (r: Vec<&'static str>)
        requires
            hits.len() == self@.len(),
        ensures
            texts_view(r@) == flagged(self@, hits@),
    {
        let mut r: Vec<&'static str> = Vec::new();
        let mut i: usize = 0;
        while i < self.entries.len()
            invariant
                i <= self.entries.len(),
                hits.len() == self@.len(),
                texts_view(r@) == flagged(self@.take(i as int), hits@.take(i as int)),
            decreases self.entries.len() - i,
        {
            assert(self@.take(i + 1).drop_last() =~= self@.take(i as int));
            assert(hits@.take(i + 1).drop_last() =~= hits@.take(i as int));
            if hits[i] {
                r.push(self.entries[i].name);
            }
            assert(texts_view(r@) =~= flagged(self@.take(i + 1), hits@.take(i + 1)));
            i += 1;
        }
        assert(self@.take(i as int) =~= self@);
        assert(hits@.take(i as int) =~= hits@);
        r
    }

    /// The names of every entry whose pattern matches `input`, in catalog
    /// order, each at most once. No input is an error: one that no format
    /// fits gives no names.
    pub fn classify(&self, input: &str) -> (r: Vec<&'static str>)
        ensures
            texts_view(r@) == matching_names(self@, input@),
            self.wf() ==> texts_view(r@).no_duplicates(),
    {
        let mut hits: Vec<bool> = Vec::new();
        let mut i: usize = 0;
        while i < self.entries.len()
            invariant
                i <= self.entries.len(),
                hits.len() == i,
                forall|k: int| 0 <= k < i ==> hits@[k] == regex_finds_match(self@[k].1, input@),
            decreases self.entries.len() - i,
        {
            let e = &self.entries[i];
            assert(self@[i as int] == e@);
            hits.push(finds_match(&e.matcher, input));
            i += 1;
        }
        let r = self.flagged_names(&hits);
        proof {
            lemma_flagged_matching(self@, hits@, input@);
            if self.wf() {
                lemma_matching_names_distinct(self@, input@);
            }
        }
        r
    }
}

/// The names of every known timestamp format that `timestamp` matches.
///
/// This builds the catalog for the one call; to classify many strings,
/// build a [`Catalog`] once and call [`Catalog::classify`] on it.
pub fn identify_timestamp_format(timestamp: &str) -> (r: Vec<&'static str>)
    ensures
        texts_view(r@) == matching_names(usable(format_table()), timestamp@),
{
    Catalog::build().classify(timestamp)
}

/// No two entries that a catalog keeps share a name.
pub proof fn lemma_usable_names_unique(defs: Seq<Definition>)
    ensures
        has_unique_names(usable(defs)),
    decreases defs.len(),
{
    if defs.len() > 0 {
        let kept = usable(defs.drop_last());
        lemma_usable_names_unique(defs.drop_last());
        if rejection_of(kept, defs.last()) is None {
            assert forall|i: int| 0 <= i < kept.len() implies kept[i].0 != defs.last().0 by {
                assert(names_of(kept)[i] == kept[i].0);
            }
        }
    }
}

/// A name is in the result of classifying `input` exactly when some entry of
/// that name has a pattern that matches `input`.
pub proof fn lemma_matching_names_member(es: Seq<Definition>, input: Seq<char>, name: Seq<char>)
    ensures
        matching_names(es, input).contains(name) <==> exists|k: int|
            0 <= k < es.len() && es[k].0 == name && regex_finds_match(es[k].1, input),
    decreases es.len(),
{
    if es.len() > 0 {
        let rest = es.drop_last();
        let earlier = matching_names(rest, input);
        lemma_matching_names_member(rest, input, name);
        if matching_names(es, input).contains(name) {
            if !earlier.contains(name) {
                let k = es.len() - 1;
                assert(es[k].0 == name && regex_finds_match(es[k].1, input));
            } else {
                let k = choose|k: int|
                    0 <= k < rest.len() && rest[k].0 == name && regex_finds_match(rest[k].1, input);
                assert(es[k] == rest[k]);
            }
        }
        if exists|k: int| 0 <= k < es.len() && es[k].0 == name && regex_finds_match(es[k].1, input) {
            let k = choose|k: int|
                0 <= k < es.len() && es[k].0 == name && regex_finds_match(es[k].1, input);
            if k == es.len() - 1 {
                assert(matching_names(es, input).last() == name);
            } else {
                assert(rest[k] == es[k]);
                let m = choose|m: int| 0 <= m < earlier.len() && earlier[m] == name;
                assert(matching_names(es, input)[m] == name);
            }
        }
    }
}

/// Against entries with distinct names, classifying gives each name at most
/// once: the result is a set of names.
pub proof fn lemma_matching_names_distinct(es: Seq<Definition>, input: Seq<char>)
    requires
        has_unique_names(es),
    ensures
        matching_names(es, input).no_duplicates(),
    decreases es.len(),
{
    if es.len() > 0 {
        let rest = es.drop_last();
        let earlier = matching_names(rest, input);
        lemma_matching_names_distinct(rest, input);
        if regex_finds_match(es.last().1, input) {
            lemma_matching_names_member(rest, input, es.last().0);
            assert(!earlier.contains(es.last().0)) by {
                if earlier.contains(es.last().0) {
                    let k = choose|k: int|
                        0 <= k < rest.len() && rest[k].0 == es.last().0 && regex_finds_match(
                            rest[k].1,
                            input,
                        );
                    assert(es[k].0 != es[es.len() - 1].0);
                }
            }
            let r = matching_names(es, input);
            assert forall|a: int, b: int| 0 <= a < b < r.len() implies r[a] != r[b] by {
                if b == r.len() - 1 {
                    assert(r[a] == earlier[a]);
                } else {
                    assert(r[a] == earlier[a] && r[b] == earlier[b]);
                }
            }
        }
    }
}

/// Flagging each entry by whether its pattern matches `input` selects the
/// names that classifying `input` gives.
pub proof fn lemma_flagged_matching(es: Seq<Definition>, hits: Seq<bool>, input: Seq<char>)
    requires
        hits.len() == es.len(),
        forall|k: int| 0 <= k < es.len() ==> hits[k] == regex_finds_match(es[k].1, input),
    ensures
        flagged(es, hits) == matching_names(es, input),
    decreases es.len(),
{
    if es.len() > 0 {
        lemma_flagged_matching(es.drop_last(), hits.drop_last(), input);
    }
}

/// Classifying is deterministic: two results of classifying inputs with the
/// same characters against the catalog that `Catalog::build` gives hold the
/// same names in the same order.
pub proof fn lemma_classify_deterministic(
    first: Seq<&'static str>,
    second: Seq<&'static str>,
    a: Seq<char>,
    b: Seq<char>,
)
    requires
        a == b,
        texts_view(first) == matching_names(usable(format_table()), a),
        texts_view(second) == matching_names(usable(format_table()), b),
    ensures
        texts_view(first) == texts_view(second),
{
}

/// Building sorts every definition out: each one is either kept or left out,
/// never both and never neither.
pub proof fn lemma_every_definition_accounted(defs: Seq<Definition>)
    ensures
        usable(defs).len() + rejected(defs).len() == defs.len(),
    decreases defs.len(),
{
    if defs.len() > 0 {
        lemma_every_definition_accounted(defs.drop_last());
    }
}

} // verus!
