//! The closed category taxonomy and the menu entry type.

use vstd::prelude::*;

verus! {

/// One of the six fixed categories of the menu.
#[derive(Debug, Clone, Copy, PartialEq, Eq, Structural)]
pub enum MenuKind {
    LimitedTime,
    Nigiri,
    Gunkan,
    SideMenu,
    Drink,
    Dessert,
}

/// One classified dish of the catalog.
#[derive(Debug, PartialEq, Eq)]
pub struct Menu {
    pub kind: MenuKind,
    pub name: String,
}

impl View for Menu {
    type V = (MenuKind, Seq<char>);

    open spec fn view(&self) -> (MenuKind, Seq<char>) {
        (self.kind, self.name@)
    }
}

/// The abstract value of a catalog: its entries in order.
pub open spec fn menus_view(v: Seq<Menu>) -> Seq<(MenuKind, Seq<char>)> {
    v.map_values(|m: Menu| m@)
}

/// The category label that the menu page shows for each category.
pub open spec fn label_of(k: MenuKind) -> Seq<char> {
    match k {
        MenuKind::LimitedTime => "期間限定"@,
        MenuKind::Nigiri => "にぎり"@,
        MenuKind::Gunkan => "軍艦・巻物"@,
        MenuKind::SideMenu => "サイドメニュー"@,
        MenuKind::Drink => "ドリンク"@,
        MenuKind::Dessert => "デザート"@,
    }
}

/// The category that a page label stands for, if it is one of the six.
pub open spec fn kind_of(label: Seq<char>) -> Option<MenuKind> {
    if label == label_of(MenuKind::LimitedTime) {
        Some(MenuKind::LimitedTime)
    } else if label == label_of(MenuKind::Nigiri) {
        Some(MenuKind::Nigiri)
    } else if label == label_of(MenuKind::Gunkan) {
        Some(MenuKind::Gunkan)
    } else if label == label_of(MenuKind::SideMenu) {
        Some(MenuKind::SideMenu)
    } else if label == label_of(MenuKind::Drink) {
        Some(MenuKind::Drink)
    } else if label == label_of(MenuKind::Dessert) {
        Some(MenuKind::Dessert)
    } else {
        None
    }
}

impl Menu {
    /// A copy of the entry, field by field.
    pub fn duplicate(&self) -> (r: Menu)
        ensures
            r == *self,
    {
        Menu { kind: self.kind, name: self.name.clone() }
    }
}

/// Maps a category label of the menu page to its category; any other text,
/// the empty one included, is unknown.
pub fn to_menu_kind(label: &str) -> (r: Option<MenuKind>)
    ensures
        r == kind_of(label@),
{
    let l = label.to_owned();
    if l == String::from_str("期間限定") {
        Some(MenuKind::LimitedTime)
    } else if l == String::from_str("にぎり") {
        Some(MenuKind::Nigiri)
    } else if l == String::from_str("軍艦・巻物") {
        Some(MenuKind::Gunkan)
    } else if l == String::from_str("サイドメニュー") {
        Some(MenuKind::SideMenu)
    } else if l == String::from_str("ドリンク") {
        Some(MenuKind::Drink)
    } else if l == String::from_str("デザート") {
        Some(MenuKind::Dessert)
    } else {
        None
    }
}

/// Each of the six labels names its own category, and a label that names a
/// category is that category's label: the table is one to one.
pub proof fn lemma_label_table(k: MenuKind, label: Seq<char>)
    ensures
        kind_of(label_of(k)) == Some(k),
        kind_of(label) == Some(k) <==> label == label_of(k),
{
    reveal_strlit("期間限定");
    reveal_strlit("にぎり");
    reveal_strlit("軍艦・巻物");
    reveal_strlit("サイドメニュー");
    reveal_strlit("ドリンク");
    reveal_strlit("デザート");
    assert(label_of(MenuKind::LimitedTime)[0] == '期');
    assert(label_of(MenuKind::Nigiri)[0] == 'に');
    assert(label_of(MenuKind::Gunkan)[0] == '軍');
    assert(label_of(MenuKind::SideMenu)[0] == 'サ');
    assert(label_of(MenuKind::Drink)[0] == 'ド');
    assert(label_of(MenuKind::Dessert)[0] == 'デ');
}

} // verus!
