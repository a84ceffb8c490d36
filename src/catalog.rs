//! Catalog construction: classifying each labelled section. The first
//! section label that names no category aborts the whole construction, so
//! no catalog holds an entry of an unknown category.

use crate::markup::{page_sections, patterns_ok, read_sections, section_view, sections_view, opt_view, RawSection};
use crate::menu::{kind_of, menus_view, to_menu_kind, Menu, MenuKind};
use vstd::prelude::*;

verus! {

/// Why a catalog could not be built.
#[derive(Debug, PartialEq, Eq)]
pub enum CatalogError {
    /// A selector of the page layout did not compile.
    InvalidPattern,
    /// A section's label (given) names none of the six categories.
    UnknownCategory(String),
}

/// The entries of category `k` for the items that have a name, in order.
pub open spec fn tagged(k: MenuKind, names: Seq<Option<Seq<char>>>) -> Seq<(MenuKind, Seq<char>)>
    decreases names.len(),
{
    if names.len() == 0 {
        Seq::empty()
    } else {
        let rest = tagged(k, names.drop_last());
        match names.last() {
            Some(n) => rest.push((k, n)),
            None => rest,
        }
    }
}

/// The catalog of the sections: for each labelled section in order, its
/// named items under the label's category; or the first label, items or
/// none, that names no category. Sections without a label are skipped.
pub open spec fn catalog_of(secs: Seq<(Option<Seq<char>>, Seq<Option<Seq<char>>>)>) -> Result<Seq<(MenuKind, Seq<char>)>, Seq<char>>
    decreases secs.len(),
{
    if secs.len() == 0 {
        Ok(Seq::empty())
    } else {
        match catalog_of(secs.drop_last()) {
            Err(l) => Err(l),
            Ok(done) => match secs.last().0 {
                None => Ok(done),
                Some(l) => match kind_of(l) {
                    Some(k) => Ok(done + tagged(k, secs.last().1)),
                    None => Err(l),
                },
            },
        }
    }
}

/// A prefix that fails decides the catalog of the whole sequence.
pub proof fn lemma_catalog_prefix_err(secs: Seq<(Option<Seq<char>>, Seq<Option<Seq<char>>>)>, i: int)
    requires
        0 <= i <= secs.len(),
        catalog_of(secs.subrange(0, i)) is Err,
    ensures
        catalog_of(secs) == catalog_of(secs.subrange(0, i)),
    decreases secs.len(),
{
    if i == secs.len() {
        assert(secs.subrange(0, i) =~= secs);
    } else {
        assert(secs.drop_last().subrange(0, i) =~= secs.subrange(0, i));
        lemma_catalog_prefix_err(secs.drop_last(), i);
    }
}

/// Builds the catalog of sections: each labelled section's label is
/// classified, whether or not it has items, and its named items are entered
/// under that category, in order. Fails with the first unknown label.
pub fn catalog_from_sections(sections: &Vec<RawSection>) -> (r: Result<Vec<Menu>, CatalogError>)
    ensures
        match r {
            Ok(v) => catalog_of(sections_view(sections@)) == Ok::<_, Seq<char>>(menus_view(v@)),
            Err(CatalogError::UnknownCategory(l)) => catalog_of(sections_view(sections@)) == Err::<Seq<(MenuKind, Seq<char>)>, _>(l@),
            Err(CatalogError::InvalidPattern) => false,
        },
{
    let ghost sv = sections_view(sections@);
    let mut out: Vec<Menu> = Vec::new();
    let mut i: usize = 0;
    assert(sv.subrange(0, 0) =~= Seq::<(Option<Seq<char>>, Seq<Option<Seq<char>>>)>::empty());
    assert(menus_view(out@) =~= Seq::<(MenuKind, Seq<char>)>::empty());
    while i < sections.len()
        invariant
            i <= sections@.len(),
            sv == sections_view(sections@),
            catalog_of(sv.subrange(0, i as int)) == Ok::<_, Seq<char>>(menus_view(out@)),
        decreases sections@.len() - i,
    {
        let sec = &sections[i];
        let ghost before = menus_view(out@);
        let ghost names = section_view(*sec).1;
        assert(sv.subrange(0, i + 1).drop_last() =~= sv.subrange(0, i as int));
        assert(sv[i as int] == section_view(*sec));
        match &sec.label {
            None => {},
            Some(label) => {
                match to_menu_kind(label.as_str()) {
                    None => {
                        proof {
                            lemma_catalog_prefix_err(sv, i + 1);
                        }
                        return Err(CatalogError::UnknownCategory(label.clone()));
                    },
                    Some(kind) => {
                        let mut j: usize = 0;
                        assert(names.subrange(0, 0) =~= Seq::<Option<Seq<char>>>::empty());
                        assert(menus_view(out@) =~= before + tagged(kind, names.subrange(0, 0)));
                        while j < sec.names.len()
                            invariant
                                j <= sec.names@.len(),
                                names == sec.names@.map_values(|n: Option<String>| opt_view(n)),
                                menus_view(out@) == before + tagged(kind, names.subrange(0, j as int)),
                            decreases sec.names@.len() - j,
                        {
                            assert(names.subrange(0, j + 1).drop_last() =~= names.subrange(0, j as int));
                            let ghost prev = out@;
                            match &sec.names[j] {
                                None => {},
                                Some(n) => {
                                    out.push(Menu { kind, name: n.clone() });
                                    assert(menus_view(out@) =~= menus_view(prev).push((kind, n@)));
                                },
                            }
                            assert(menus_view(out@) =~= before + tagged(kind, names.subrange(0, j + 1)));
                            j = j + 1;
                        }
                        assert(names.subrange(0, j as int) =~= names);
                    },
                }
            },
        }
        i = i + 1;
    }
    assert(sv.subrange(0, i as int) =~= sv);
    Ok(out)
}

/// Builds the catalog of a menu page from its sections (see
/// `read_sections`). An unknown category label aborts the build.
pub fn build_catalog(document: &str) -> (r: Result<Vec<Menu>, CatalogError>)
    ensures
        r matches Err(CatalogError::InvalidPattern) <==> !patterns_ok(),
        patterns_ok() ==> match r {
            Ok(v) => catalog_of(page_sections(document@)) == Ok::<_, Seq<char>>(menus_view(v@)),
            Err(CatalogError::UnknownCategory(l)) => catalog_of(page_sections(document@)) == Err::<Seq<(MenuKind, Seq<char>)>, _>(l@),
            Err(CatalogError::InvalidPattern) => false,
        },
{
    match read_sections(document) {
        None => Err(CatalogError::InvalidPattern),
        Some(sections) => catalog_from_sections(&sections),
    }
}

} // verus!
