use sushi_roll::menu::{to_menu_kind, MenuKind};
use sushi_roll::text::flatten_lines;

#[test]
fn each_label_maps_to_its_category() {
    assert_eq!(to_menu_kind("期間限定"), Some(MenuKind::LimitedTime));
    assert_eq!(to_menu_kind("にぎり"), Some(MenuKind::Nigiri));
    assert_eq!(to_menu_kind("軍艦・巻物"), Some(MenuKind::Gunkan));
    assert_eq!(to_menu_kind("サイドメニュー"), Some(MenuKind::SideMenu));
    assert_eq!(to_menu_kind("ドリンク"), Some(MenuKind::Drink));
    assert_eq!(to_menu_kind("デザート"), Some(MenuKind::Dessert));
}

#[test]
fn other_labels_are_unknown() {
    assert_eq!(to_menu_kind(""), None);
    assert_eq!(to_menu_kind("   "), None);
    assert_eq!(to_menu_kind("ラーメン"), None);
    assert_eq!(to_menu_kind("にぎり "), None);
    assert_eq!(to_menu_kind("Nigiri"), None);
}

#[test]
fn flatten_removes_line_boundaries() {
    assert_eq!(flatten_lines("えび\nアボカド"), "えびアボカド");
    assert_eq!(flatten_lines("a\r\nb\nc\n"), "abc");
    assert_eq!(flatten_lines("\n\n"), "");
    assert_eq!(flatten_lines(""), "");
}

#[test]
fn flatten_keeps_a_lone_carriage_return() {
    assert_eq!(flatten_lines("a\rb"), "a\rb");
    assert_eq!(flatten_lines("no break"), "no break");
}
