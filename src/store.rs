//! The stored form of a catalog: one record per entry, with the category
//! as its tag name and the dish name, in catalog order.

use crate::menu::{menus_view, Menu, MenuKind};
use vstd::prelude::*;

verus! {

/// One stored entry: the tag name of its category and its dish name.
#[derive(Debug, PartialEq, Eq)]
pub struct Record {
    pub kind: String,
    pub name: String,
}

impl View for Record {
    type V = (Seq<char>, Seq<char>);

    open spec fn view(&self) -> (Seq<char>, Seq<char>) {
        (self.kind@, self.name@)
    }
}

/// Why a stored catalog could not be loaded.
#[derive(Debug, PartialEq, Eq)]
pub enum LoadError {
    /// The stored catalog is missing or could not be read.
    Unreadable,
    /// The stored text is not a sequence of records with a text tag and name.
    Malformed,
    /// A record's tag (given) names none of the six categories.
    UnknownTag(String),
}

/// The abstract value of a sequence of records.
pub open spec fn records_view(v: Seq<Record>) -> Seq<(Seq<char>, Seq<char>)> {
    v.map_values(|r: Record| r@)
}

/// The tag name under which a category is stored.
pub open spec fn tag_name(k: MenuKind) -> Seq<char> {
    match k {
        MenuKind::LimitedTime => "LimitedTime"@,
        MenuKind::Nigiri => "Nigiri"@,
        MenuKind::Gunkan => "Gunkan"@,
        MenuKind::SideMenu => "SideMenu"@,
        MenuKind::Drink => "Drink"@,
        MenuKind::Dessert => "Desert"@,
    }
}

/// The category that a stored tag name stands for, if any.
pub open spec fn tag_kind(t: Seq<char>) -> Option<MenuKind> {
    if t == tag_name(MenuKind::LimitedTime) {
        Some(MenuKind::LimitedTime)
    } else if t == tag_name(MenuKind::Nigiri) {
        Some(MenuKind::Nigiri)
    } else if t == tag_name(MenuKind::Gunkan) {
        Some(MenuKind::Gunkan)
    } else if t == tag_name(MenuKind::SideMenu) {
        Some(MenuKind::SideMenu)
    } else if t == tag_name(MenuKind::Drink) {
        Some(MenuKind::Drink)
    } else if t == tag_name(MenuKind::Dessert) {
        Some(MenuKind::Dessert)
    } else {
        None
    }
}

/// Resolves the text tag of each (tag, name) pair through `table`, in order:
/// the resolved entries, or the first tag that `table` does not know.
pub open spec fn resolve(
    table: spec_fn(Seq<char>) -> Option<MenuKind>,
    s: Seq<(Seq<char>, Seq<char>)>,
) -> Result<Seq<(MenuKind, Seq<char>)>, Seq<char>>
    decreases s.len(),
{
    if s.len() == 0 {
        Ok(Seq::empty())
    } else {
        match resolve(table, s.drop_last()) {
            Err(t) => Err(t),
            Ok(done) => match table(s.last().0) {
                Some(k) => Ok(done.push((k, s.last().1))),
                None => Err(s.last().0),
            },
        }
    }
}

/// A prefix that fails decides the result of the whole sequence.
pub proof fn lemma_resolve_prefix_err(
    table: spec_fn(Seq<char>) -> Option<MenuKind>,
    s: Seq<(Seq<char>, Seq<char>)>,
    i: int,
)
    requires
        0 <= i <= s.len(),
        resolve(table, s.subrange(0, i)) is Err,
    ensures
        resolve(table, s) == resolve(table, s.subrange(0, i)),
    decreases s.len(),
{
    if i == s.len() {
        assert(s.subrange(0, i) =~= s);
    } else {
        assert(s.drop_last().subrange(0, i) =~= s.subrange(0, i));
        lemma_resolve_prefix_err(table, s.drop_last(), i);
    }
}

/// The records that store a catalog.
pub open spec fn encode(c: Seq<(MenuKind, Seq<char>)>) -> Seq<(Seq<char>, Seq<char>)> {
    c.map_values(|e: (MenuKind, Seq<char>)| (tag_name(e.0), e.1))
}

/// The catalog that records store, or the first unknown tag.
pub open spec fn decode(rs: Seq<(Seq<char>, Seq<char>)>) -> Result<Seq<(MenuKind, Seq<char>)>, Seq<char>> {
    resolve(|t: Seq<char>| tag_kind(t), rs)
}

impl MenuKind {
    /// The tag name under which this category is stored.
    pub fn tag(&self) -> (r: String)
        ensures
            r@ == tag_name(*self),
    {
        match self {
            MenuKind::LimitedTime => String::from_str("LimitedTime"),
            MenuKind::Nigiri => String::from_str("Nigiri"),
            MenuKind::Gunkan => String::from_str("Gunkan"),
            MenuKind::SideMenu => String::from_str("SideMenu"),
            MenuKind::Drink => String::from_str("Drink"),
            MenuKind::Dessert => String::from_str("Desert"),
        }
    }

    /// The category of a stored tag name, if it is one of the six.
    pub fn from_tag(t: &str) -> (r: Option<MenuKind>)
        ensures
            r == tag_kind(t@),
    {
        let t = t.to_owned();
        if t == String::from_str("LimitedTime") {
            Some(MenuKind::LimitedTime)
        } else if t == String::from_str("Nigiri") {
            Some(MenuKind::Nigiri)
        } else if t == String::from_str("Gunkan") {
            Some(MenuKind::Gunkan)
        } else if t == String::from_str("SideMenu") {
            Some(MenuKind::SideMenu)
        } else if t == String::from_str("Drink") {
            Some(MenuKind::Drink)
        } else if t == String::from_str("Desert") {
            Some(MenuKind::Dessert)
        } else {
            None
        }
    }
}

/// The records that store `catalog`, one per entry, in order.
pub fn to_records(catalog: &Vec<Menu>) -> (r: Vec<Record>)
    ensures
        records_view(r@) == encode(menus_view(catalog@)),
{
    let mut out: Vec<Record> = Vec::new();
    let mut i: usize = 0;
    while i < catalog.len()
        invariant
            i <= catalog@.len(),
            records_view(out@) == encode(menus_view(catalog@.subrange(0, i as int))),
        decreases catalog@.len() - i,
    {
        let ghost prev = out@;
        out.push(Record { kind: catalog[i].kind.tag(), name: catalog[i].name.clone() });
        assert(records_view(out@) =~= records_view(prev).push((tag_name(catalog@[i as int].kind), catalog@[i as int].name@)));
        assert(encode(menus_view(catalog@.subrange(0, i + 1))) =~= encode(menus_view(catalog@.subrange(0, i as int))).push(
            (tag_name(catalog@[i as int].kind), catalog@[i as int].name@),
        ));
        i = i + 1;
    }
    assert(catalog@.subrange(0, i as int) =~= catalog@);
    out
}

/// The catalog that `records` store, in order; fails with the first tag
/// that names no category.
pub fn from_records(records: &Vec<Record>) -> (r: Result<Vec<Menu>, LoadError>)
    ensures
        match r {
            Ok(v) => decode(records_view(records@)) == Ok::<_, Seq<char>>(menus_view(v@)),
            Err(LoadError::UnknownTag(t)) => decode(records_view(records@)) == Err::<Seq<(MenuKind, Seq<char>)>, _>(t@),
            Err(_) => false,
        },
{
    let ghost rv = records_view(records@);
    let mut out: Vec<Menu> = Vec::new();
    let mut i: usize = 0;
    assert(rv.subrange(0, 0) =~= Seq::<(Seq<char>, Seq<char>)>::empty());
    assert(menus_view(out@) =~= Seq::<(MenuKind, Seq<char>)>::empty());
    while i < records.len()
        invariant
            i <= records@.len(),
            rv == records_view(records@),
            decode(rv.subrange(0, i as int)) == Ok::<_, Seq<char>>(menus_view(out@)),
        decreases records@.len() - i,
    {
        assert(rv.subrange(0, i + 1).drop_last() =~= rv.subrange(0, i as int));
        assert(rv[i as int] == records@[i as int]@);
        match MenuKind::from_tag(records[i].kind.as_str()) {
            None => {
                proof {
                    lemma_resolve_prefix_err(|t: Seq<char>| tag_kind(t), rv, i + 1);
                }
                return Err(LoadError::UnknownTag(records[i].kind.clone()));
            },
            Some(kind) => {
                let ghost prev = out@;
                out.push(Menu { kind, name: records[i].name.clone() });
                assert(menus_view(out@) =~= menus_view(prev).push((kind, records@[i as int].name@)));
            },
        }
        i = i + 1;
    }
    assert(rv.subrange(0, i as int) =~= rv);
    Ok(out)
}

/// Each category's tag name reads back as that category.
pub proof fn lemma_tag_inverse(k: MenuKind)
    ensures
        tag_kind(tag_name(k)) == Some(k),
{
    reveal_strlit("LimitedTime");
    reveal_strlit("Nigiri");
    reveal_strlit("Gunkan");
    reveal_strlit("SideMenu");
    reveal_strlit("Drink");
    reveal_strlit("Desert");
    assert(tag_name(MenuKind::LimitedTime)[0] == 'L');
    assert(tag_name(MenuKind::Nigiri)[0] == 'N');
    assert(tag_name(MenuKind::Gunkan)[0] == 'G');
    assert(tag_name(MenuKind::SideMenu)[0] == 'S');
    assert(tag_name(MenuKind::Drink)[1] == 'r');
    assert(tag_name(MenuKind::Dessert)[1] == 'e');
}

/// Loading the records that store a catalog gives that catalog back, with
/// its entries in the same order.
pub proof fn lemma_round_trip(c: Seq<(MenuKind, Seq<char>)>)
    ensures
        decode(encode(c)) == Ok::<_, Seq<char>>(c),
    decreases c.len(),
{
    if c.len() == 0 {
        assert(encode(c) =~= Seq::<(Seq<char>, Seq<char>)>::empty());
        assert(c =~= Seq::<(MenuKind, Seq<char>)>::empty());
    } else {
        assert(encode(c).drop_last() =~= encode(c.drop_last()));
        assert(encode(c).last() == (tag_name(c.last().0), c.last().1));
        lemma_round_trip(c.drop_last());
        lemma_tag_inverse(c.last().0);
        assert(c.drop_last().push(c.last()) =~= c);
        assert(decode(encode(c.drop_last())) == resolve(|t: Seq<char>| tag_kind(t), encode(c).drop_last()));
        assert(decode(encode(c)) == Ok::<_, Seq<char>>(c.drop_last().push((c.last().0, c.last().1))));
    }
}

} // verus!
