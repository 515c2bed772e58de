//! What the web server's pages answer, for the data that each request was
//! handed: which source a page reads, and what it shows for what was read.

use crate::article::Article;
use crate::entry_id::{uuid_text, EntryId};
use crate::index::Index;
use vstd::prelude::*;

verus! {

/// A page reads through the cache unless the request asks `no_cache=true`.
pub open spec fn reads_cache(no_cache: Option<bool>) -> bool {
    no_cache != Some(true)
}

/// Whether a request with query parameter `no_cache` reads through the cache
/// (or straight from GitHub): only `no_cache=true` bypasses the cache.
pub fn use_cache(no_cache: Option<bool>) -> (cached: bool)
    ensures
        cached == reads_cache(no_cache),
        no_cache == Some(true) ==> !cached,
        no_cache != Some(true) ==> cached,
{
    match no_cache {
        Some(true) => false,
        _ => true,
    }
}

/// Only a request that asks `no_cache=true` bypasses the cache: a missing
/// parameter and `no_cache=false` both read through it.
pub proof fn lemma_cache_bypassed_only_on_request(no_cache: Option<bool>)
    ensures
        !reads_cache(no_cache) <==> no_cache == Some(true),
        reads_cache(None),
        reads_cache(Some(false)),
{
}

/// The address of an image's raw data, with `?no_cache=true` where the page
/// itself was asked to bypass the cache.
pub open spec fn raw_image_src(id: EntryId, no_cache: Option<bool>) -> Seq<char> {
    if reads_cache(no_cache) {
        "/image/raw/"@ + uuid_text(id.0)
    } else {
        "/image/raw/"@ + uuid_text(id.0) + "?no_cache=true"@
    }
}

/// The HTML of an image's page.
pub open spec fn image_tag_text(id: EntryId, no_cache: Option<bool>) -> Seq<char> {
    "<img src=\""@ + raw_image_src(id, no_cache) + "\" width=\"500\" height=\"600\">"@
}

/// The image page's HTML names the raw image by the identifier's whole text,
/// right after `<img src="/image/raw/`, and carries `?no_cache=true` right
/// after it exactly when the page bypasses the cache.
pub proof fn lemma_image_tag_names_the_image(id: EntryId, no_cache: Option<bool>)
    ensures
        image_tag_text(id, no_cache).subrange(0, 21) == "<img src=\"/image/raw/"@,
        image_tag_text(id, no_cache).subrange(21, 57) == uuid_text(id.0),
        reads_cache(no_cache) ==> image_tag_text(id, no_cache).len() == 84,
        !reads_cache(no_cache) ==> image_tag_text(id, no_cache).len() == 98,
        !reads_cache(no_cache) ==> image_tag_text(id, no_cache).subrange(57, 71)
            == "?no_cache=true"@,
{
    crate::entry_id::lemma_unhyphenate_uuid_text(id.0);
    reveal_strlit("<img src=\"");
    reveal_strlit("/image/raw/");
    reveal_strlit("?no_cache=true");
    reveal_strlit("\" width=\"500\" height=\"600\">");
    reveal_strlit("<img src=\"/image/raw/");
    let t = image_tag_text(id, no_cache);
    assert(t.subrange(0, 21) =~= "<img src=\"/image/raw/"@);
    assert(t.subrange(21, 57) =~= uuid_text(id.0));
    if !reads_cache(no_cache) {
        assert(t.subrange(57, 71) =~= "?no_cache=true"@);
    }
}

/// The image page: an `img` element, 500 by 600, showing the raw image, read
/// through the cache unless the page was asked `no_cache=true`.
pub fn image_tag(id: EntryId, no_cache: Option<bool>) -> (html: String)
    ensures
        html@ == image_tag_text(id, no_cache),
        html@.subrange(21, 57) == uuid_text(id.0),
        no_cache == Some(true) ==> html@.len() == 98 && html@.subrange(57, 71)
            == "?no_cache=true"@,
        no_cache != Some(true) ==> html@.len() == 84,
{
    proof {
        lemma_image_tag_names_the_image(id, no_cache);
    }
    let text = id.text();
    let mut html = String::from_str("<img src=\"");
    html.append("/image/raw/");
    html.append(text.as_str());
    if !use_cache(no_cache) {
        html.append("?no_cache=true");
    }
    html.append("\" width=\"500\" height=\"600\">");
    html
}

/// What the article page shows where no article could be loaded.
pub open spec fn article_not_found() -> Seq<char> {
    "Article Not found"@
}

/// The text of the article page: the article where it was loaded, a notice
/// otherwise.
pub fn article_page_content(article: Option<Article>) -> (content: String)
    ensures
        article matches Some(a) ==> content == a.content,
        article is None ==> content@ == article_not_found(),
        article is None ==> content@ == "Article Not found"@,
{
    match article {
        Some(a) => a.content,
        None => String::from_str("Article Not found"),
    }
}

/// What a listing page shows where the index could not be loaded.
pub open spec fn index_unavailable() -> Seq<char> {
    "Unable to load index"@
}

/// A listing page: the entries of the index, or a notice.
pub enum IndexPage<T> {
    /// The index was loaded: its entries are listed.
    Listing(Index<T>),
    /// The index could not be loaded: the page shows this text.
    Unavailable(String),
}

/// The listing page (of articles or of images) for the index as it was
/// loaded: its listing, or a notice where it could not be loaded.
pub fn index_page<T>(loaded: Option<Index<T>>) -> (page: IndexPage<T>)
    ensures
        loaded matches Some(index) ==> page == IndexPage::Listing(index),
        loaded is None ==> (page matches IndexPage::Unavailable(text) && text@ == index_unavailable()),
        loaded is None ==> (page matches IndexPage::Unavailable(text) && text@
            == "Unable to load index"@),
{
    match loaded {
        Some(index) => IndexPage::Listing(index),
        None => IndexPage::Unavailable(String::from_str("Unable to load index")),
    }
}

/// The media type (`type/subtype`) that `mime_guess` gives first for a file
/// extension, `application/octet-stream` where it knows none.
pub uninterp spec fn mime_essence_for_ext(ext: Seq<char>) -> Seq<char>;

/// `mime_guess::from_ext(ext).first_or_octet_stream()`, taken as its essence
/// string: the first media type that `mime_guess`'s table lists for `ext`,
/// without parameters, or `application/octet-stream` where the table lists
/// none. For the empty extension the table is not consulted and the answer
/// is `application/octet-stream`. The table itself is not stated.
#[verifier::external_body]
fn guess_mime(ext: &str) -> (mime: String)
    ensures
        mime@ == mime_essence_for_ext(ext@),
        ext@.len() == 0 ==> mime@ == "application/octet-stream"@,
{
    mime_guess::from_ext(ext).first_or_octet_stream().essence_str().to_owned()
}

/// The `Content-Type` that a raw image with extension `ext` is served with.
pub fn content_type_for_ext(ext: &str) -> (mime: String)
    ensures
        mime@ == mime_essence_for_ext(ext@),
{
    guess_mime(ext)
}

/// What the raw-image address answers.
pub enum RawImageReply<C> {
    /// The image's bytes, with their media type.
    Image { content_type: String, content: C },
    /// The image could not be loaded: this text is answered instead.
    Missing(String),
}

/// The answer to a raw-image request, given the image's data as it was loaded
/// (`None` where it could not be) and the extension that its index entry
/// records: the data, typed by that extension, or a notice.
pub fn raw_image_reply<C>(image: Option<C>, ext: Option<String>) -> (reply: RawImageReply<C>)
    requires
        image is Some ==> ext is Some,
    ensures
        image matches Some(c) ==> (reply matches RawImageReply::Image { content_type, content }
            && content == c && content_type@ == mime_essence_for_ext(ext.unwrap()@)),
        image is None ==> (reply matches RawImageReply::Missing(text) && text@ == article_not_found()),
        image is None ==> (reply matches RawImageReply::Missing(text) && text@
            == "Article Not found"@),
{
    match image {
        Some(content) => {
            let e = ext.unwrap();
            RawImageReply::Image { content_type: content_type_for_ext(e.as_str()), content }
        },
        None => RawImageReply::Missing(String::from_str("Article Not found")),
    }
}

} // verus!
