//! Reading the category sections of a menu page, over the values and
//! names of `scrape`.

use crate::scrape::{compile, element_match_count, element_text, is_selector, page_match_count, parse_page, select_in_element, select_in_page, text_of, Element, Pattern};
use crate::text::{flatten, flatten_lines};
use vstd::prelude::*;

verus! {

/// The selector of the category sections of the page.
pub const SECTION_PATTERN: &'static str = ".sec-wrap .c_l-content section";

/// The selector of a section's category label.
pub const LABEL_PATTERN: &'static str = "h3 a";

/// The selector of a section's items.
pub const ITEM_PATTERN: &'static str = "ul.item-list li a";

/// The selector of an item's display name.
pub const NAME_PATTERN: &'static str = "span.ttl";

/// The flattened text of the first match of `pattern` under the element at
/// `path`, or `None` when nothing matches.
pub open spec fn first_match_line(page: Seq<char>, path: Seq<(Seq<char>, int)>, pattern: Seq<char>) -> Option<Seq<char>> {
    if element_match_count(page, path, pattern) == 0 {
        None
    } else {
        Some(flatten(element_text(page, path.push((pattern, 0)))))
    }
}

/// A section read off the page: its label, if any, and the name, if any, of
/// each of its items; each text flattened to one line.
pub open spec fn section_at(page: Seq<char>, i: int) -> (Option<Seq<char>>, Seq<Option<Seq<char>>>) {
    let p = seq![(SECTION_PATTERN@, i)];
    (
        first_match_line(page, p, LABEL_PATTERN@),
        Seq::new(
            element_match_count(page, p, ITEM_PATTERN@),
            |j: int| first_match_line(page, p.push((ITEM_PATTERN@, j)), NAME_PATTERN@),
        ),
    )
}

/// The category sections of the page, in document order.
pub open spec fn page_sections(page: Seq<char>) -> Seq<(Option<Seq<char>>, Seq<Option<Seq<char>>>)> {
    Seq::new(page_match_count(page, SECTION_PATTERN@), |i: int| section_at(page, i))
}

/// The four selectors of the page layout compile.
pub open spec fn patterns_ok() -> bool {
    &&& is_selector(SECTION_PATTERN@)
    &&& is_selector(LABEL_PATTERN@)
    &&& is_selector(ITEM_PATTERN@)
    &&& is_selector(NAME_PATTERN@)
}

/// A section as read off the page: its label, if it has one, and the name
/// of each item, if it has one, each flattened to one line.
pub struct RawSection {
    pub label: Option<String>,
    pub names: Vec<Option<String>>,
}

/// The abstract value of an optional text.
pub open spec fn opt_view(o: Option<String>) -> Option<Seq<char>> {
    match o {
        Some(s) => Some(s@),
        None => None,
    }
}

/// The abstract value of a section.
pub open spec fn section_view(s: RawSection) -> (Option<Seq<char>>, Seq<Option<Seq<char>>>) {
    (opt_view(s.label), s.names@.map_values(|n: Option<String>| opt_view(n)))
}

/// The abstract value of a sequence of sections.
pub open spec fn sections_view(v: Seq<RawSection>) -> Seq<(Option<Seq<char>>, Seq<Option<Seq<char>>>)> {
    v.map_values(|s: RawSection| section_view(s))
}

/// The text of the first descendant of `e` that `pat` matches, with its
/// line boundaries removed; `None` when no descendant matches.
fn first_line(e: &Element, pat: &Pattern) -> (r: Option<String>)
    ensures
        opt_view(r) == first_match_line(e@.0, e@.1, pat@),
{
    let found = select_in_element(e, pat);
    if found.len() == 0 {
        None
    } else {
        let text = text_of(&found[0]);
        Some(flatten_lines(text.as_str()))
    }
}

/// Reads the category sections of a menu page, in document order: each
/// section's label (the first `h3 a`) and, for each item (`ul.item-list li
/// a`), its name (the first `span.ttl`), flattened to one line. `None`
/// exactly when a selector of the page layout does not compile.
pub fn read_sections(document: &str) -> (r: Option<Vec<RawSection>>)
    ensures
        r is Some <==> patterns_ok(),
        r matches Some(v) ==> sections_view(v@) == page_sections(document@),
{
    let section_pat = compile(SECTION_PATTERN)?;
    let label_pat = compile(LABEL_PATTERN)?;
    let item_pat = compile(ITEM_PATTERN)?;
    let name_pat = compile(NAME_PATTERN)?;
    let page = parse_page(document);
    let found = select_in_page(&page, &section_pat);
    let ghost target = page_sections(document@);
    let mut sections: Vec<RawSection> = Vec::new();
    let mut i: usize = 0;
    while i < found.len()
        invariant
            i <= found@.len(),
            found@.len() == target.len(),
            target == page_sections(document@),
            forall|k: int| 0 <= k < found@.len() ==> (#[trigger] found@[k])@ == (document@, seq![(SECTION_PATTERN@, k)]),
            label_pat@ == LABEL_PATTERN@,
            item_pat@ == ITEM_PATTERN@,
            name_pat@ == NAME_PATTERN@,
            sections_view(sections@) == target.subrange(0, i as int),
        decreases found@.len() - i,
    {
        let sec = &found[i];
        let label = first_line(sec, &label_pat);
        let items = select_in_element(sec, &item_pat);
        let ghost want = section_at(document@, i as int).1;
        let mut names: Vec<Option<String>> = Vec::new();
        let mut j: usize = 0;
        while j < items.len()
            invariant
                j <= items@.len(),
                items@.len() == want.len(),
                want == section_at(document@, i as int).1,
                forall|k: int| 0 <= k < items@.len() ==> (#[trigger] items@[k])@ == (document@, seq![(SECTION_PATTERN@, i as int)].push((ITEM_PATTERN@, k))),
                name_pat@ == NAME_PATTERN@,
                names@.map_values(|n: Option<String>| opt_view(n)) == want.subrange(0, j as int),
            decreases items@.len() - j,
        {
            let name = first_line(&items[j], &name_pat);
            let ghost prev = names@;
            names.push(name);
            assert(names@.map_values(|n: Option<String>| opt_view(n)) =~= prev.map_values(|n: Option<String>| opt_view(n)).push(want[j as int]));
            assert(want.subrange(0, j + 1) =~= want.subrange(0, j as int).push(want[j as int]));
            j = j + 1;
        }
        assert(want.subrange(0, j as int) =~= want);
        let ghost prev = sections@;
        sections.push(RawSection { label, names });
        assert(sections_view(sections@) =~= sections_view(prev).push(target[i as int]));
        assert(target.subrange(0, i + 1) =~= target.subrange(0, i as int).push(target[i as int]));
        i = i + 1;
    }
    assert(target.subrange(0, i as int) =~= target);
    Some(sections)
}

} // verus!
