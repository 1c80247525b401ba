use rustdoc_text::error::DocError;
use rustdoc_text::html::ListingEntry;
use rustdoc_text::identifier::ResourceIdentifier;
use rustdoc_text::infer::{
    ends_with_name, infer_from_listing, kind_of_entry, plan_inference, scan_listing, InferencePlan,
};
use rustdoc_text::item_type::ItemType;

fn chars(text: &str) -> Vec<char> {
    text.chars().collect()
}

fn entry(title: Option<&str>, class: Option<&str>) -> ListingEntry {
    ListingEntry { title: title.map(|t| t.to_string()), class: class.map(|c| c.to_string()) }
}

fn page(listing: &str) -> String {
    format!("<html><body><nav><a class=\"enum\" title=\"enum Foo\">Foo</a></nav><section id=\"main-content\">{}</section></body></html>", listing)
}

#[test]
fn the_first_of_two_entries_decides() {
    let listing = "<a class=\"struct\" title=\"struct Foo\">Foo</a><a class=\"fn\" title=\"fn Foo\">Foo</a>";
    assert_eq!(infer_from_listing(&page(listing), "Foo"), Ok(ItemType::Struct));
    let turned = "<a class=\"fn\" title=\"fn Foo\">Foo</a><a class=\"struct\" title=\"struct Foo\">Foo</a>";
    assert_eq!(infer_from_listing(&page(turned), "Foo"), Ok(ItemType::Function));
}

#[test]
fn the_first_of_two_entries_decides_in_a_scan() {
    let entries = vec![entry(Some("struct Foo"), Some("struct")), entry(Some("fn Foo"), Some("fn"))];
    assert_eq!(scan_listing(&entries, "Foo"), Ok(ItemType::Struct));
}

#[test]
fn entries_are_read_in_document_order_through_nesting() {
    let listing = "<ul><li><div><a class=\"trait\" title=\"trait Foo\">Foo</a></div></li></ul>\
        <a class=\"struct\" title=\"struct Foo\">Foo</a>";
    assert_eq!(infer_from_listing(&page(listing), "Foo"), Ok(ItemType::Trait));
}

#[test]
fn entries_are_read_in_document_order_where_the_parser_moves_one() {
    let listing = "<table><tr><td><a class=\"struct\" title=\"struct Foo\"></a></td></tr>\
        <a class=\"fn\" title=\"fn Foo\"></a></table>";
    assert_eq!(infer_from_listing(&page(listing), "Foo"), Ok(ItemType::Function));
}

#[test]
fn only_the_main_content_is_scanned() {
    let listing = "<a class=\"struct\" title=\"struct Bar\">Bar</a>";
    assert_eq!(infer_from_listing(&page(listing), "Foo"), Err(DocError::ResourceNotFound));
}

#[test]
fn an_entry_with_an_unknown_class_is_passed_over() {
    let listing = "<a class=\"struct link\" title=\"struct Foo\">Foo</a>\
        <a class=\"shiny\" title=\"shiny Foo\">Foo</a>\
        <a title=\"bare Foo\">Foo</a>\
        <a class=\"macro\" title=\"macro Foo\">Foo</a>";
    assert_eq!(infer_from_listing(&page(listing), "Foo"), Ok(ItemType::Macro));
}

#[test]
fn no_entry_is_resource_not_found() {
    assert_eq!(infer_from_listing(&page(""), "Foo"), Err(DocError::ResourceNotFound));
    assert_eq!(scan_listing(&Vec::new(), "Foo"), Err(DocError::ResourceNotFound));
}

#[test]
fn a_page_without_main_content_is_content_not_found() {
    let html = "<html><body><a class=\"struct\" title=\"struct Foo\">Foo</a></body></html>";
    assert_eq!(infer_from_listing(html, "Foo"), Err(DocError::ContentNotFound));
}

#[test]
fn a_page_with_two_main_contents_is_content_not_found() {
    let html = "<div id=\"main-content\"><a class=\"struct\" title=\"struct Foo\">Foo</a></div>\
        <div id=\"main-content\"></div>";
    assert_eq!(infer_from_listing(html, "Foo"), Err(DocError::ContentNotFound));
}

#[test]
fn the_title_must_end_in_space_and_name() {
    assert!(ends_with_name(&chars("struct Foo"), &chars("Foo")));
    assert!(ends_with_name(&chars(" Foo"), &chars("Foo")));
    assert!(ends_with_name(&chars("struct  Foo"), &chars("Foo")));
    assert!(!ends_with_name(&chars("Foo"), &chars("Foo")));
    assert!(!ends_with_name(&chars("structFoo"), &chars("Foo")));
    assert!(!ends_with_name(&chars("struct demo::Foo"), &chars("Foo")));
    assert!(!ends_with_name(&chars("struct Foo "), &chars("Foo")));
    assert!(!ends_with_name(&chars("struct FooBar"), &chars("Foo")));
    assert!(!ends_with_name(&chars(""), &chars("Foo")));
    assert!(!ends_with_name(&chars("oo"), &chars("Foo")));
}

#[test]
fn the_match_is_case_sensitive() {
    assert!(!ends_with_name(&chars("struct foo"), &chars("Foo")));
    assert!(!ends_with_name(&chars("struct FOO"), &chars("Foo")));
    let listing = "<a class=\"struct\" title=\"struct foo\">foo</a><a class=\"fn\" title=\"fn Foo\">Foo</a>";
    assert_eq!(infer_from_listing(&page(listing), "Foo"), Ok(ItemType::Function));
}

#[test]
fn an_empty_name_asks_for_a_final_space() {
    assert!(ends_with_name(&chars("struct "), &chars("")));
    assert!(!ends_with_name(&chars("struct"), &chars("")));
    assert!(!ends_with_name(&chars(""), &chars("")));
}

#[test]
fn a_name_may_hold_any_character() {
    let listing = "<a class=\"fn\" title='fn a\"]b'>x</a>";
    assert_eq!(infer_from_listing(&page(listing), "a\"]b"), Ok(ItemType::Function));
}

#[test]
fn an_entry_gives_a_kind_by_title_and_class() {
    let name = chars("Foo");
    assert_eq!(kind_of_entry(&entry(Some("struct Foo"), Some("struct")), &name), Some(ItemType::Struct));
    assert_eq!(kind_of_entry(&entry(Some("struct Bar"), Some("struct")), &name), None);
    assert_eq!(kind_of_entry(&entry(Some("struct Foo"), Some("Struct")), &name), None);
    assert_eq!(kind_of_entry(&entry(Some("struct Foo"), None), &name), None);
    assert_eq!(kind_of_entry(&entry(None, Some("struct")), &name), None);
    assert_eq!(kind_of_entry(&entry(None, None), &name), None);
}

#[test]
fn the_class_decides_and_not_the_words_of_the_title() {
    let entries = vec![entry(Some("struct Foo"), Some("enum"))];
    assert_eq!(scan_listing(&entries, "Foo"), Ok(ItemType::Enum));
}

#[test]
fn the_root_of_a_library_needs_no_listing() {
    let id = ResourceIdentifier::new("serde", None, None).unwrap();
    assert_eq!(plan_inference(&id), InferencePlan::Known(ItemType::Module));
}

#[test]
fn a_longer_path_is_looked_up_in_its_container() {
    let id = ResourceIdentifier::new("serde::de::Visitor", None, None).unwrap();
    assert_eq!(
        plan_inference(&id),
        InferencePlan::Listing("https://docs.rs/serde/latest/serde/de/index.html".to_string())
    );
    let id = ResourceIdentifier::new("serde::Serialize", None, Some("1.0.0")).unwrap();
    assert_eq!(
        plan_inference(&id),
        InferencePlan::Listing("https://docs.rs/serde/1.0.0/serde/index.html".to_string())
    );
}
