use sushi_roll::catalog::{build_catalog, catalog_from_sections, CatalogError};
use sushi_roll::extract::{collect_pairs, extract, RawPair};
use sushi_roll::markup::{read_sections, RawSection};
use sushi_roll::menu::MenuKind;

fn page(sections: &str) -> String {
    format!(
        "<html><body><div class=\"sec-wrap\"><div class=\"c_l-content\">{}</div></div></body></html>",
        sections
    )
}

fn section(label: &str, names: &[&str]) -> String {
    let items: String = names
        .iter()
        .map(|n| format!("<li><a href=\"#\"><span class=\"ttl\">{}</span></a></li>", n))
        .collect();
    format!("<section><h3><a href=\"#\">{}</a></h3><ul class=\"item-list\">{}</ul></section>", label, items)
}

fn fixture() -> String {
    page(&(section("にぎり", &["まぐろ", "えび<br>\nアボカド"]) + &section("ドリンク", &["お茶"])))
}

#[test]
fn two_sections_give_three_entries_in_order() {
    let catalog = build_catalog(&fixture()).unwrap();
    let kinds: Vec<MenuKind> = catalog.iter().map(|m| m.kind).collect();
    assert_eq!(kinds, vec![MenuKind::Nigiri, MenuKind::Nigiri, MenuKind::Drink]);
    let names: Vec<&str> = catalog.iter().map(|m| m.name.as_str()).collect();
    assert_eq!(names, vec!["まぐろ", "えびアボカド", "お茶"]);
}

#[test]
fn extract_gives_flat_pairs() {
    let pairs = extract(&fixture()).unwrap();
    assert_eq!(pairs.len(), 3);
    assert_eq!(pairs[1], RawPair { label: "にぎり".to_string(), name: "えびアボカド".to_string() });
    assert!(pairs.iter().all(|p| !p.name.contains('\n')));
}

#[test]
fn multi_line_label_is_flattened() {
    let doc = page(&section("ドリ\nンク", &["コーラ"]));
    let catalog = build_catalog(&doc).unwrap();
    assert_eq!(catalog.len(), 1);
    assert_eq!(catalog[0].kind, MenuKind::Drink);
    assert_eq!(catalog[0].name, "コーラ");
}

#[test]
fn unknown_category_aborts_the_build() {
    let doc = page(&(section("にぎり", &["まぐろ"]) + &section("ラーメン", &["醤油"])));
    assert_eq!(build_catalog(&doc), Err(CatalogError::UnknownCategory("ラーメン".to_string())));
}

#[test]
fn page_without_sections_gives_empty_catalog() {
    assert_eq!(build_catalog("<html><body><p>closed</p></body></html>"), Ok(vec![]));
    assert_eq!(build_catalog(""), Ok(vec![]));
}

#[test]
fn section_without_items_gives_nothing() {
    let doc = page(&(section("デザート", &[]) + &section("にぎり", &["いか"])));
    let catalog = build_catalog(&doc).unwrap();
    assert_eq!(catalog.len(), 1);
    assert_eq!(catalog[0].name, "いか");
}

#[test]
fn missing_label_or_name_is_skipped() {
    let no_label = "<section><ul class=\"item-list\"><li><a><span class=\"ttl\">たこ</span></a></li></ul></section>";
    let no_name = "<section><h3><a>にぎり</a></h3><ul class=\"item-list\"><li><a>no title</a></li><li><a><span class=\"ttl\">ほたて</span></a></li></ul></section>";
    let doc = page(&format!("{}{}", no_label, no_name));
    let catalog = build_catalog(&doc).unwrap();
    assert_eq!(catalog.len(), 1);
    assert_eq!(catalog[0].kind, MenuKind::Nigiri);
    assert_eq!(catalog[0].name, "ほたて");
}

#[test]
fn collect_pairs_skips_missing_label_and_name() {
    let sections = vec![
        RawSection { label: None, names: vec![Some("x".to_string())] },
        RawSection {
            label: Some("にぎり".to_string()),
            names: vec![Some("ab".to_string()), None, Some("c".to_string())],
        },
    ];
    let pairs = collect_pairs(&sections);
    assert_eq!(
        pairs,
        vec![
            RawPair { label: "にぎり".to_string(), name: "ab".to_string() },
            RawPair { label: "にぎり".to_string(), name: "c".to_string() },
        ]
    );
}

#[test]
fn first_unknown_label_is_reported() {
    let sections = vec![
        RawSection { label: Some("ドリンク".to_string()), names: vec![Some("水".to_string())] },
        RawSection { label: Some("夏".to_string()), names: vec![Some("a".to_string())] },
        RawSection { label: Some("冬".to_string()), names: vec![Some("b".to_string())] },
    ];
    assert_eq!(catalog_from_sections(&sections), Err(CatalogError::UnknownCategory("夏".to_string())));
    let sections = vec![RawSection { label: Some("".to_string()), names: vec![Some("a".to_string())] }];
    assert_eq!(catalog_from_sections(&sections), Err(CatalogError::UnknownCategory("".to_string())));
}

#[test]
fn unknown_label_without_items_aborts_the_build() {
    let doc = "<div class='sec-wrap'><div class='c_l-content'><section><h3><a>にぎり</a></h3><ul class='item-list'><li><a><span class='ttl'>まぐろ</span></a></li></ul></section><section><h3><a>季節限定</a></h3></section></div></div>";
    assert_eq!(build_catalog(doc), Err(CatalogError::UnknownCategory("季節限定".to_string())));
    let sections = vec![RawSection { label: Some("季節限定".to_string()), names: vec![] }];
    assert_eq!(catalog_from_sections(&sections), Err(CatalogError::UnknownCategory("季節限定".to_string())));
}

#[test]
fn first_label_and_first_name_are_taken() {
    let doc = page(
        "<section><h3><a>\nにぎ\nり</a></h3><h3><a>ドリンク</a></h3><ul class='item-list'><li><a><span class='ttl'>まぐ\nろ</span><span class='ttl'>鯛</span></a></li></ul></section>",
    );
    let sections = read_sections(&doc).unwrap();
    assert_eq!(sections.len(), 1);
    assert_eq!(sections[0].label, Some("にぎり".to_string()));
    assert_eq!(sections[0].names, vec![Some("まぐろ".to_string())]);
    let catalog = build_catalog(&doc).unwrap();
    assert_eq!(catalog.len(), 1);
    assert_eq!(catalog[0].kind, MenuKind::Nigiri);
    assert_eq!(catalog[0].name, "まぐろ");
}

#[test]
fn read_sections_reports_missing_parts() {
    let doc = page("<section><ul class='item-list'><li><a>none</a></li><li><a><span class='ttl'>えび</span></a></li></ul></section>");
    let sections = read_sections(&doc).unwrap();
    assert_eq!(sections.len(), 1);
    assert_eq!(sections[0].label, None);
    assert_eq!(sections[0].names, vec![None, Some("えび".to_string())]);
}
