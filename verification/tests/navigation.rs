use rust_reader::bookinfo::BookInfo;
use rust_reader::epub::{Epub, EpubError, RawResource, TocEntry};
use rust_reader::reader::ReaderState;

fn resource(name: &str, path: &str, mime: &str) -> RawResource {
    RawResource { name: name.to_string(), path: path.to_string(), mime: mime.to_string() }
}

fn toc(content: &str, label: &str) -> TocEntry {
    TocEntry { content: content.to_string(), label: label.to_string() }
}

fn info(id: &str) -> BookInfo {
    BookInfo {
        id: id.to_string(),
        file_path: String::new(),
        cover_path: String::new(),
        title: String::new(),
        creator: String::new(),
        date: String::new(),
        publisher: String::new(),
        language: String::new(),
        subject: String::new(),
        description: String::new(),
        last_open: 0,
    }
}

/// Three chapters over a five-entry spine: the catalog's size is independent
/// of the resource table's size.
fn sample_doc() -> Epub {
    let spine = vec![
        "front".to_string(),
        "c1".to_string(),
        "c2".to_string(),
        "c3".to_string(),
        "back".to_string(),
    ];
    let manifest = vec![
        resource("front", "front.xhtml", "application/xhtml+xml"),
        resource("c1", "ch1.xhtml", "application/xhtml+xml"),
        resource("c2", "ch2.xhtml", "application/xhtml+xml"),
        resource("c3", "ch3.xhtml", "application/xhtml+xml"),
        resource("back", "back.xhtml", "application/xhtml+xml"),
        resource("style", "main.css", "text/css"),
    ];
    let toc_entries = vec![
        toc("ch1.xhtml", "One"),
        toc("ch2.xhtml", "Two"),
        toc("ch3.xhtml", "Three"),
    ];
    Epub::new(info("book"), spine, manifest, toc_entries).unwrap()
}

#[test]
fn catalog_size_is_independent_of_spine_size() {
    let doc = sample_doc();
    assert_eq!(doc.catalog.len(), 3);
    assert_eq!(doc.spine_paths.len(), 5);
    assert_eq!(doc.resources_mapping.len(), 3);
    // Every chapter resolves to exactly one spine index.
    assert_eq!(doc.resources_mapping, vec![1, 2, 3]);
    assert_eq!(doc.get_catalog(), vec!["One", "Two", "Three"]);
}

#[test]
fn duplicate_toc_paths_share_a_resource() {
    let spine = vec!["c1".to_string(), "c2".to_string()];
    let manifest = vec![
        resource("c1", "ch1.xhtml", "application/xhtml+xml"),
        resource("c2", "ch2.xhtml", "application/xhtml+xml"),
    ];
    let toc_entries = vec![
        toc("ch1.xhtml", "One"),
        toc("ch1.xhtml", "One again"),
        toc("ch2.xhtml", ""),
    ];
    let doc = Epub::new(info("book"), spine, manifest, toc_entries).unwrap();
    // Distinct chapter indices, identical binding; labels kept verbatim.
    assert_eq!(doc.resources_mapping, vec![0, 0, 1]);
    assert_eq!(doc.get_catalog(), vec!["One", "One again", ""]);
}

#[test]
fn toc_path_missing_from_spine_is_malformed() {
    let spine = vec!["c1".to_string()];
    let manifest = vec![resource("c1", "ch1.xhtml", "application/xhtml+xml")];
    let toc_entries = vec![toc("nowhere.xhtml", "Lost")];
    let r = Epub::new(info("book"), spine, manifest, toc_entries);
    assert_eq!(r.unwrap_err(), EpubError::MalformedContainer);
}

#[test]
fn spine_identifier_missing_from_manifest_is_malformed() {
    let spine = vec!["c1".to_string(), "ghost".to_string()];
    let manifest = vec![resource("c1", "ch1.xhtml", "application/xhtml+xml")];
    let r = Epub::new(info("book"), spine, manifest, vec![toc("ch1.xhtml", "One")]);
    assert_eq!(r.unwrap_err(), EpubError::MalformedContainer);
}

#[test]
fn advance_walks_to_the_last_chapter() {
    let mut doc = sample_doc();
    assert_eq!(doc.current_page, 0);
    for expected in 1..doc.catalog.len() {
        assert!(doc.go_next());
        assert_eq!(doc.current_page, expected);
    }
    assert_eq!(doc.current_page, doc.catalog.len() - 1);
    // One more advance fails and the cursor stays put.
    assert!(!doc.go_next());
    assert_eq!(doc.current_page, doc.catalog.len() - 1);
}

#[test]
fn retreat_at_zero_reports_failure_without_underflow() {
    let mut doc = sample_doc();
    assert!(!doc.go_prev());
    assert_eq!(doc.current_page, 0);
    assert!(doc.go_next());
    assert!(doc.go_prev());
    assert_eq!(doc.current_page, 0);
}

#[test]
fn jump_is_idempotent_inside_the_catalog() {
    let mut doc = sample_doc();
    assert!(doc.set_current_page(2));
    assert_eq!(doc.current_page, 2);
    let cursor = doc.current_page;
    assert!(doc.set_current_page(cursor));
    assert_eq!(doc.current_page, 2);
}

#[test]
fn jump_at_catalog_length_reports_out_of_range() {
    let mut doc = sample_doc();
    assert!(doc.set_current_page(1));
    let len = doc.catalog.len();
    assert!(!doc.set_current_page(len));
    assert_eq!(doc.current_page, 1);
    assert!(!doc.set_current_page(len + 7));
    assert_eq!(doc.current_page, 1);
}

#[test]
fn commands_without_an_open_document_report_no_open_document() {
    let mut state = ReaderState::new();
    assert_eq!(state.advance_page().unwrap_err(), EpubError::NoOpenDocument);
    assert_eq!(state.retreat_page().unwrap_err(), EpubError::NoOpenDocument);
    assert_eq!(state.jump_to_chapter(0).unwrap_err(), EpubError::NoOpenDocument);
    assert_eq!(state.get_catalog().unwrap_err(), EpubError::NoOpenDocument);
    assert_eq!(state.current_resource().unwrap_err(), EpubError::NoOpenDocument);
}

#[test]
fn command_cursor_moves_and_boundaries() {
    let mut state = ReaderState::new();
    let doc = sample_doc();
    state.current = Some(doc);
    // The initial chapter is bound to spine index 1.
    assert_eq!(state.current_resource().unwrap(), 1);
    assert_eq!(state.advance_page().unwrap(), 2);
    assert_eq!(state.advance_page().unwrap(), 3);
    assert_eq!(state.advance_page().unwrap_err(), EpubError::NoMorePages);
    assert_eq!(state.retreat_page().unwrap(), 2);
    assert_eq!(state.jump_to_chapter(0).unwrap(), 1);
    assert_eq!(state.retreat_page().unwrap_err(), EpubError::NoMorePages);
    assert_eq!(state.jump_to_chapter(3).unwrap_err(), EpubError::ChapterOutOfRange);
    assert_eq!(state.current_resource().unwrap(), 1);
}

#[test]
fn failed_open_leaves_the_previous_document_untouched() {
    let mut state = ReaderState::new();
    let spine = vec!["c1".to_string()];
    let manifest = vec![resource("c1", "ch1.xhtml", "application/xhtml+xml")];
    let good = state.open_document(
        info("good"),
        spine.clone(),
        manifest.clone(),
        vec![toc("ch1.xhtml", "Only")],
    );
    assert!(good.is_ok());
    assert_eq!(state.get_catalog().unwrap(), vec!["Only"]);

    // A TOC that references a path absent from every spine entry must fail
    // and leave the earlier handle in place.
    let bad = state.open_document(
        info("bad"),
        spine,
        manifest,
        vec![toc("missing.xhtml", "Ghost")],
    );
    assert_eq!(bad.unwrap_err(), EpubError::MalformedContainer);
    assert_eq!(state.get_catalog().unwrap(), vec!["Only"]);
    assert_eq!(state.current.as_ref().unwrap().info.id, "good");
}

#[test]
fn empty_catalog_has_no_current_chapter() {
    let spine = vec!["c1".to_string()];
    let manifest = vec![resource("c1", "ch1.xhtml", "application/xhtml+xml")];
    let doc = Epub::new(info("empty"), spine, manifest, Vec::new()).unwrap();
    assert_eq!(doc.current_resource_index(), None);
    let mut state = ReaderState::new();
    state.current = Some(doc);
    assert_eq!(state.current_resource().unwrap_err(), EpubError::ChapterOutOfRange);
}
