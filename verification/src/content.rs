use vstd::prelude::*;
use vstd::utf8::{decode_utf8, valid_utf8};

use crate::epub::EpubError;

verus! {

/// What the HTML parser yields for a page: the inner serialization of the
/// page's first `body` element, or nothing when the parsed tree holds none.
/// The parse is a function of the page text alone, so its result is named
/// rather than spelled out.
pub uninterp spec fn body_inner_html(page: Seq<char>) -> Option<Seq<char>>;

/// Relies on scraper: `Html::parse_document` parses the page,
/// `Selector::parse("body")` with `Html::select` finds the first body
/// element, and `ElementRef::inner_html` serializes its contents. The result
/// depends on the page text alone.
#[verifier::external_body]
fn parse_body(page: &str) -> (r: Option<String>)
    ensures
        (r is Some) == (body_inner_html(page@) is Some),
        r matches Some(s) ==> Some(s@) == body_inner_html(page@),
{
    let document = scraper::Html::parse_document(page);
    let selector = scraper::Selector::parse("body").ok()?;
    let body = document.select(&selector).next()?;
    Some(body.inner_html())
}

/// Relies on String::from_utf8: it succeeds exactly on valid UTF-8 and
/// returns the string those bytes encode (vstd's `valid_utf8` /
/// `decode_utf8` model of the encoding).
#[verifier::external_body]
pub fn utf8_to_string(bytes: &Vec<u8>) -> (r: Option<String>)
    ensures
        (r is Some) == valid_utf8(bytes@),
        r matches Some(s) ==> s@ == decode_utf8(bytes@),
{
    String::from_utf8(bytes.clone()).ok()
}

/// Extracts the renderable content of a page: decodes the resource's bytes
/// as UTF-8, parses the text as HTML and returns the inner serialization of
/// its body element. Bytes that are not UTF-8 fail with
/// `ContentDecodeError`; a page without a body element fails with
/// `MalformedMarkupError`.
pub fn extract_content(bytes: &Vec<u8>) -> (r: Result<String, EpubError>)
    ensures
        !valid_utf8(bytes@) ==> r == Err::<String, EpubError>(EpubError::ContentDecodeError),
        valid_utf8(bytes@) && body_inner_html(decode_utf8(bytes@)) is None ==> r == Err::<
            String,
            EpubError,
        >(EpubError::MalformedMarkupError),
        valid_utf8(bytes@) && body_inner_html(decode_utf8(bytes@)) is Some ==> (r matches Ok(s)
            && Some(s@) == body_inner_html(decode_utf8(bytes@))),
{
    match utf8_to_string(bytes) {
        None => Err(EpubError::ContentDecodeError),
        Some(page) => match parse_body(page.as_str()) {
            None => Err(EpubError::MalformedMarkupError),
            Some(content) => Ok(content),
        },
    }
}

} // verus!
