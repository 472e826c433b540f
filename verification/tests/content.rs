use rust_reader::bookinfo::BookInfo;
use rust_reader::content::extract_content;
use rust_reader::epub::{Epub, EpubError, RawResource, TocEntry};

fn resource(name: &str, path: &str, mime: &str) -> RawResource {
    RawResource { name: name.to_string(), path: path.to_string(), mime: mime.to_string() }
}

fn info() -> BookInfo {
    BookInfo {
        id: "book".to_string(),
        file_path: String::new(),
        cover_path: String::new(),
        title: String::new(),
        creator: String::new(),
        date: String::new(),
        publisher: String::new(),
        language: String::new(),
        subject: String::new(),
        description: String::new(),
        last_open: 0,
    }
}

#[test]
fn extract_content_returns_the_body_markup() {
    let page = b"<html><head><title>t</title></head><body><p>hello</p></body></html>".to_vec();
    assert_eq!(extract_content(&page).unwrap(), "<p>hello</p>");
}

#[test]
fn extract_content_rejects_bytes_that_are_not_utf8() {
    let bytes = vec![0xff, 0xfe, 0x00, 0x41];
    assert_eq!(extract_content(&bytes).unwrap_err(), EpubError::ContentDecodeError);
}

#[test]
fn extract_content_keeps_markup_inside_the_body() {
    let page = b"<body><div id=\"a\"><em>x</em></div><p>y</p></body>".to_vec();
    assert_eq!(extract_content(&page).unwrap(), "<div id=\"a\"><em>x</em></div><p>y</p>");
}

#[test]
fn stylesheets_are_selected_by_media_type_and_keyed_with_suffix() {
    // Three CSS resources among two others: exactly three entries come back,
    // keyed by resource name + ".css".
    let manifest = vec![
        resource("main", "styles/main.css", "text/css"),
        resource("c1", "ch1.xhtml", "application/xhtml+xml"),
        resource("print", "styles/print.css", "text/css"),
        resource("cover", "cover.png", "image/png"),
        resource("fonts", "styles/fonts.css", "text/css"),
    ];
    let contents: Vec<Vec<u8>> = vec![
        b"body { margin: 0; }".to_vec(),
        b"<html></html>".to_vec(),
        b"@page { size: A4; }".to_vec(),
        vec![0x89, 0x50, 0x4e, 0x47],
        b"@font-face {}".to_vec(),
    ];
    let spine = vec!["c1".to_string()];
    let doc = Epub::new(
        info(),
        spine,
        manifest,
        vec![TocEntry { content: "ch1.xhtml".to_string(), label: "One".to_string() }],
    )
    .unwrap();
    let css = doc.get_css(&contents);
    assert_eq!(css.len(), 3);
    assert_eq!(css[0].0, "main.css");
    assert_eq!(css[0].1.as_deref().unwrap(), "body { margin: 0; }");
    assert_eq!(css[1].0, "print.css");
    assert_eq!(css[1].1.as_deref().unwrap(), "@page { size: A4; }");
    assert_eq!(css[2].0, "fonts.css");
    assert_eq!(css[2].1.as_deref().unwrap(), "@font-face {}");
}

#[test]
fn one_malformed_stylesheet_fails_alone() {
    let manifest = vec![
        resource("good", "a.css", "text/css"),
        resource("bad", "b.css", "text/css"),
    ];
    let contents: Vec<Vec<u8>> = vec![b"p {}".to_vec(), vec![0xff, 0xff]];
    let spine: Vec<String> = Vec::new();
    let doc = Epub::new(info(), spine, manifest, Vec::new()).unwrap();
    let css = doc.get_css(&contents);
    assert_eq!(css.len(), 2);
    assert_eq!(css[0].0, "good.css");
    assert!(css[0].1.is_ok());
    assert_eq!(css[1].0, "bad.css");
    assert_eq!(css[1].1.clone().unwrap_err(), EpubError::ContentDecodeError);
}
