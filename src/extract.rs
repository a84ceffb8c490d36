//! The extractor: from the menu page to (category label, dish name) pairs.
//!
//! A section without a label and an item without a name are skipped; the
//! rest of the page is still read.

use crate::markup::{page_sections, patterns_ok, read_sections, section_view, sections_view, RawSection};
use vstd::prelude::*;

verus! {

/// One extracted pair: the category label and the dish name.
#[derive(Debug, PartialEq, Eq)]
pub struct RawPair {
    pub label: String,
    pub name: String,
}

impl View for RawPair {
    type V = (Seq<char>, Seq<char>);

    open spec fn view(&self) -> (Seq<char>, Seq<char>) {
        (self.label@, self.name@)
    }
}

/// The abstract value of a sequence of pairs.
pub open spec fn pairs_view(v: Seq<RawPair>) -> Seq<(Seq<char>, Seq<char>)> {
    v.map_values(|p: RawPair| p@)
}

/// The pairs of one section labelled `label`: one for each item that has a
/// name, in item order.
pub open spec fn item_pairs(label: Seq<char>, names: Seq<Option<Seq<char>>>) -> Seq<(Seq<char>, Seq<char>)>
    decreases names.len(),
{
    if names.len() == 0 {
        Seq::empty()
    } else {
        let rest = item_pairs(label, names.drop_last());
        match names.last() {
            Some(n) => rest.push((label, n)),
            None => rest,
        }
    }
}

/// The pairs of one section: none when it has no label.
pub open spec fn section_pairs(s: (Option<Seq<char>>, Seq<Option<Seq<char>>>)) -> Seq<(Seq<char>, Seq<char>)> {
    match s.0 {
        Some(l) => item_pairs(l, s.1),
        None => Seq::empty(),
    }
}

/// The pairs of all sections, in section order and then item order.
pub open spec fn all_pairs(secs: Seq<(Option<Seq<char>>, Seq<Option<Seq<char>>>)>) -> Seq<(Seq<char>, Seq<char>)>
    decreases secs.len(),
{
    if secs.len() == 0 {
        Seq::empty()
    } else {
        all_pairs(secs.drop_last()) + section_pairs(secs.last())
    }
}

/// Turns sections into (label, name) pairs in document order, skipping
/// sections without a label and items without a name.
pub fn collect_pairs(sections: &Vec<RawSection>) -> (r: Vec<RawPair>)
    ensures
        pairs_view(r@) == all_pairs(sections_view(sections@)),
{
    let ghost sv = sections_view(sections@);
    let mut out: Vec<RawPair> = Vec::new();
    let mut i: usize = 0;
    while i < sections.len()
        invariant
            i <= sections@.len(),
            sv == sections_view(sections@),
            pairs_view(out@) == all_pairs(sv.subrange(0, i as int)),
        decreases sections@.len() - i,
    {
        let sec = &sections[i];
        let ghost before = pairs_view(out@);
        let ghost names = section_view(*sec).1;
        assert(sv.subrange(0, i + 1).drop_last() =~= sv.subrange(0, i as int));
        assert(sv[i as int] == section_view(*sec));
        match &sec.label {
            None => {},
            Some(label) => {
                let mut j: usize = 0;
                assert(names.subrange(0, 0) =~= Seq::<Option<Seq<char>>>::empty());
                assert(pairs_view(out@) =~= before + item_pairs(label@, names.subrange(0, 0)));
                while j < sec.names.len()
                    invariant
                        j <= sec.names@.len(),
                        names == sec.names@.map_values(|n: Option<String>| crate::markup::opt_view(n)),
                        pairs_view(out@) == before + item_pairs(label@, names.subrange(0, j as int)),
                    decreases sec.names@.len() - j,
                {
                    assert(names.subrange(0, j + 1).drop_last() =~= names.subrange(0, j as int));
                    let ghost prev = out@;
                    match &sec.names[j] {
                        None => {},
                        Some(n) => {
                            out.push(RawPair { label: label.clone(), name: n.clone() });
                            assert(pairs_view(out@) =~= pairs_view(prev).push((label@, n@)));
                        },
                    }
                    assert(pairs_view(out@) =~= before + item_pairs(label@, names.subrange(0, j + 1)));
                    j = j + 1;
                }
                assert(names.subrange(0, j as int) =~= names);
            },
        }
        assert(pairs_view(out@) =~= all_pairs(sv.subrange(0, i + 1)));
        i = i + 1;
    }
    assert(sv.subrange(0, i as int) =~= sv);
    out
}

/// Extracts the (label, name) pairs of a menu page, in document order;
/// `None` exactly when a selector of the page layout does not compile.
pub fn extract(document: &str) -> (r: Option<Vec<RawPair>>)
    ensures
        r is Some <==> patterns_ok(),
        r matches Some(pairs) ==> pairs_view(pairs@) == all_pairs(page_sections(document@)),
{
    let sections = read_sections(document)?;
    Some(collect_pairs(&sections))
}

} // verus!
