use ogp_tui::meta::{build_ogp_info, extract_ogp_info, RawMeta};

fn raw(property: Option<&str>, name: Option<&str>, content: Option<&str>) -> RawMeta {
    RawMeta {
        property: property.map(|s| s.to_string()),
        name: name.map(|s| s.to_string()),
        content: content.map(|s| s.to_string()),
    }
}

#[test]
fn og_title_only_document() {
    let html = r#"<html><head><meta property="og:title" content="Hello"></head><body></body></html>"#;
    let info = extract_ogp_info(html);
    assert_eq!(info.title, "Hello");
    assert_eq!(info.description, "");
    assert_eq!(info.image, "");
    assert_eq!(info.metadata, vec![("og:title".to_string(), "Hello".to_string())]);
}

#[test]
fn full_document_in_order() {
    let html = r#"<html><head><meta property="og:title" content="A Title"><meta property="og:description" content="A description"><meta property="og:image" content="http://example.com/a.png"><meta name="author" content="Someone"></head><body></body></html>"#;
    let info = extract_ogp_info(html);
    assert_eq!(info.title, "A Title");
    assert_eq!(info.description, "A description");
    assert_eq!(info.image, "http://example.com/a.png");
    assert_eq!(
        info.metadata,
        vec![
            ("og:title".to_string(), "A Title".to_string()),
            ("og:description".to_string(), "A description".to_string()),
            ("og:image".to_string(), "http://example.com/a.png".to_string()),
            ("author".to_string(), "Someone".to_string()),
        ]
    );
}

#[test]
fn first_matching_property_wins() {
    let html = r#"<html><head><meta property="og:title" content="First"><meta property="og:title" content="Second"></head></html>"#;
    let info = extract_ogp_info(html);
    assert_eq!(info.title, "First");
    assert_eq!(info.metadata.len(), 2);
    assert_eq!(info.metadata[1], ("og:title".to_string(), "Second".to_string()));
}

#[test]
fn missing_content_becomes_empty_string() {
    let html = r#"<html><head><meta property="og:title"></head></html>"#;
    let info = extract_ogp_info(html);
    assert_eq!(info.title, "");
    assert_eq!(info.metadata, vec![("og:title".to_string(), String::new())]);
}

#[test]
fn elements_without_property_or_name_are_skipped() {
    let html = r#"<html><head><meta charset="utf-8"><meta name="viewport" content="width=device-width"></head></html>"#;
    let info = extract_ogp_info(html);
    assert_eq!(
        info.metadata,
        vec![("viewport".to_string(), "width=device-width".to_string())]
    );
}

#[test]
fn name_attribute_is_used_when_property_is_absent() {
    let elems = vec![
        raw(None, Some("author"), Some("Someone")),
        raw(Some("og:title"), Some("shadowed"), Some("T")),
        raw(None, None, Some("ignored")),
    ];
    let info = build_ogp_info(&elems);
    assert_eq!(info.title, "T");
    assert_eq!(
        info.metadata,
        vec![
            ("author".to_string(), "Someone".to_string()),
            ("og:title".to_string(), "T".to_string()),
        ]
    );
}

#[test]
fn build_ogp_info_reads_only_property_for_og_fields() {
    let elems = vec![raw(None, Some("og:title"), Some("not a property"))];
    let info = build_ogp_info(&elems);
    assert_eq!(info.title, "");
    assert_eq!(
        info.metadata,
        vec![("og:title".to_string(), "not a property".to_string())]
    );
}

#[test]
fn duplicate_tag_names_are_preserved_in_order() {
    let elems = vec![
        raw(Some("tag"), None, Some("1")),
        raw(Some("tag"), None, Some("2")),
        raw(Some("tag"), None, Some("1")),
    ];
    let info = build_ogp_info(&elems);
    assert_eq!(
        info.metadata,
        vec![
            ("tag".to_string(), "1".to_string()),
            ("tag".to_string(), "2".to_string()),
            ("tag".to_string(), "1".to_string()),
        ]
    );
}

#[test]
fn wants_image_follows_image_field() {
    let with = build_ogp_info(&vec![raw(Some("og:image"), None, Some("http://x/i.png"))]);
    assert!(with.wants_image());
    let without = build_ogp_info(&Vec::new());
    assert!(!without.wants_image());
}
