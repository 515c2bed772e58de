use bloggyblog::article::{
    article_file_contents, article_file_path, article_repo_path, article_url,
    check_article_status, create_new_article, draft_new_article, Article, ArticleEntry,
};
use bloggyblog::entry_id::EntryId;
use bloggyblog::image::{
    create_new_image, draft_new_image, image_file_path, image_repo_path, image_url,
    orientation_fix, orientation_fix_of_file, Image, ImageEntry, ImageStore, OrientationFix,
};
use bloggyblog::index::{index_url, Index};
use bloggyblog::pages::{
    article_page_content, content_type_for_ext, image_tag, index_page, raw_image_reply,
    use_cache, IndexPage, RawImageReply,
};
use bloggyblog::remote::{cdn_url, served_branch_name};
use bloggyblog::settings::{config_setup, AppConfig};

const SAMPLE: u128 = 0x0123_4567_89ab_cdef_0123_4567_89ab_cdef;

fn sample_id() -> EntryId {
    EntryId(SAMPLE)
}

fn entry(title: &str, id: u128) -> ArticleEntry {
    ArticleEntry { title: title.to_string(), id: EntryId(id) }
}

fn image_entry(description: &str, id: u128, ext: Option<&str>) -> ImageEntry {
    ImageEntry {
        description: description.to_string(),
        id: EntryId(id),
        ext: ext.map(|e| e.to_string()),
    }
}

#[test]
fn config_setup_gives_the_defaults() {
    let config = config_setup(vec![]);
    assert_eq!(config.article_index_file_path, "./articles/index.json");
    assert_eq!(config.article_index_base_path, "./articles");
    assert_eq!(config.image_index_file_path, "./images/index.json");
    assert_eq!(config.image_index_base_path, "./images");
    assert_eq!(config.gh_owner, "josh-gree");
    assert_eq!(config.gh_repo, "bloggyblog");
    assert_eq!(config.gh_article_index_file_path, "articles/index.json");
}

#[test]
fn default_config_is_empty() {
    let config = AppConfig::default();
    assert_eq!(config.article_index_file_path, "");
    assert_eq!(config.article_index_base_path, "");
    assert_eq!(config.image_index_file_path, "");
    assert_eq!(config.image_index_base_path, "");
    assert_eq!(config.gh_owner, "");
    assert_eq!(config.gh_repo, "");
    assert_eq!(config.gh_article_index_file_path, "");
}

#[test]
fn entry_id_text_is_hyphenated_lower_hex() {
    assert_eq!(sample_id().text(), "01234567-89ab-cdef-0123-456789abcdef");
    assert_eq!(EntryId(0).text(), "00000000-0000-0000-0000-000000000000");
    assert_eq!(EntryId(u128::MAX).text(), "ffffffff-ffff-ffff-ffff-ffffffffffff");
}

#[test]
fn random_ids_are_version_4() {
    for _ in 0..20 {
        let id = EntryId::new_random();
        assert_eq!(id.0 & 0xF000_C000_0000_0000_0000, 0x4000_8000_0000_0000_0000);
        let text = id.text();
        assert_eq!(text.len(), 36);
        assert_eq!(text.as_bytes()[14], b'4');
        assert!(matches!(text.as_bytes()[19], b'8' | b'9' | b'a' | b'b'));
    }
    assert_ne!(EntryId::new_random(), EntryId::new_random());
}

#[test]
fn article_entry_new_keeps_the_title() {
    let e = ArticleEntry::new("Hello".to_string());
    assert_eq!(e.title, "Hello");
    assert_eq!(e.id.0 & 0xF000_C000_0000_0000_0000, 0x4000_8000_0000_0000_0000);
}

#[test]
fn article_paths() {
    assert_eq!(
        article_file_path("./articles", sample_id()),
        "./articles/01234567-89ab-cdef-0123-456789abcdef.md"
    );
    assert_eq!(
        article_repo_path(sample_id()),
        "articles/01234567-89ab-cdef-0123-456789abcdef.md"
    );
    assert_eq!(article_file_contents(&entry("My title", 1)), "# My title");
}

#[test]
fn article_paths_of_distinct_ids_differ() {
    let a = article_file_path("./articles", EntryId(1));
    let b = article_file_path("./articles", EntryId(16));
    assert_ne!(a, b);
    assert_ne!(article_repo_path(EntryId(1)), article_repo_path(EntryId(1 << 64)));
}

#[test]
fn cdn_urls() {
    assert_eq!(
        cdn_url("josh-gree", "bloggyblog", "abc123", "articles/index.json"),
        "https://cdn.jsdelivr.net/gh/josh-gree/bloggyblog@abc123/articles/index.json"
    );
    let config = config_setup(vec![]);
    assert_eq!(
        article_url(&config, "deadbeef", sample_id()),
        "https://cdn.jsdelivr.net/gh/josh-gree/bloggyblog@deadbeef/articles/01234567-89ab-cdef-0123-456789abcdef.md"
    );
    assert_eq!(
        image_url(&config, "deadbeef", sample_id(), &Some("webp".to_string())),
        "https://cdn.jsdelivr.net/gh/josh-gree/bloggyblog@deadbeef/images/01234567-89ab-cdef-0123-456789abcdef.webp"
    );
    assert_eq!(
        index_url(&config, "deadbeef", "./images/index.json"),
        "https://cdn.jsdelivr.net/gh/josh-gree/bloggyblog@deadbeef/./images/index.json"
    );
    assert_eq!(served_branch_name(), "main");
}

#[test]
fn article_status_404_is_an_error() {
    assert_eq!(check_article_status(404), Err("jsdeliver 404d".to_string()));
    assert_eq!(check_article_status(200), Ok(()));
    assert_eq!(check_article_status(500), Ok(()));
}

#[test]
fn index_push_and_extend() {
    let mut index: Index<u32> = Index::new();
    assert!(index.0.is_empty());
    index.push(1);
    index.push(2);
    assert_eq!(index.0, vec![1, 2]);
    let extended = Index::extended(Ok(index), 3);
    assert_eq!(extended.0, vec![1, 2, 3]);
    let fresh = Index::extended(Err("no such file".to_string()), 7);
    assert_eq!(fresh.0, vec![7]);
}

#[test]
fn new_article_draft_and_index() {
    let config = config_setup(vec![]);
    let draft = create_new_article(&config, "First post".to_string());
    assert_eq!(draft.entry.title, "First post");
    assert_eq!(
        draft.article_file_path,
        format!("./articles/{}.md", draft.entry.id.text())
    );
    assert_eq!(draft.article_file_contents, "# First post");
    assert_eq!(draft.index_file_path, "./articles/index.json");
    let id = draft.entry.id;
    let fresh = Index::extended(Err("missing".to_string()), draft.entry);
    assert_eq!(fresh.0.len(), 1);
    assert_eq!(fresh.0[0].title, "First post");
    assert_eq!(fresh.0[0].id, id);
}

#[test]
fn new_article_on_an_existing_index() {
    let config = config_setup(vec![]);
    let loaded = Index(vec![entry("one", 1), entry("two", 2)]);
    let draft = create_new_article(&config, "three".to_string());
    let id = draft.entry.id;
    let index = Index::extended(Ok(loaded), draft.entry);
    let titles: Vec<&str> = index.0.iter().map(|e| e.title.as_str()).collect();
    assert_eq!(titles, vec!["one", "two", "three"]);
    assert_eq!(index.0[0], entry("one", 1));
    assert_eq!(index.0[1].id, EntryId(2));
    assert_eq!(index.0[2].id, id);
}

#[test]
fn draft_of_a_given_entry() {
    let config = config_setup(vec![]);
    let draft = draft_new_article(&config, entry("Given", SAMPLE));
    assert_eq!(
        draft.article_file_path,
        "./articles/01234567-89ab-cdef-0123-456789abcdef.md"
    );
    assert_eq!(draft.article_file_contents, "# Given");
    assert_eq!(draft.entry, entry("Given", SAMPLE));
}

#[test]
fn image_paths() {
    assert_eq!(
        image_repo_path(sample_id(), &Some("png".to_string())),
        "images/01234567-89ab-cdef-0123-456789abcdef.png"
    );
    assert_eq!(
        image_repo_path(sample_id(), &None),
        "images/01234567-89ab-cdef-0123-456789abcdef"
    );
    assert_eq!(
        image_file_path("./images", sample_id()),
        "./images/01234567-89ab-cdef-0123-456789abcdef.webp"
    );
}

#[test]
fn new_image_converts_all_but_webp() {
    let config = config_setup(vec![]);
    let jpg = create_new_image(&config, Some("jpg".to_string()), "a cat".to_string()).unwrap();
    assert_eq!(jpg.store, ImageStore::ConvertToWebp);
    assert_eq!(jpg.entry.description, "a cat");
    assert_eq!(jpg.entry.ext, Some("webp".to_string()));
    assert_eq!(
        jpg.image_file_path,
        format!("./images/{}.webp", jpg.entry.id.text())
    );
    assert_eq!(jpg.index_file_path, "./images/index.json");
    let index = Index::extended(Err("missing".to_string()), jpg.entry.clone());
    assert_eq!(index.0, vec![jpg.entry.clone()]);

    let webp = create_new_image(&config, Some("webp".to_string()), "a dog".to_string()).unwrap();
    assert_eq!(webp.store, ImageStore::CopyAsIs);
    let index = Index::extended(Ok(index), webp.entry.clone());
    assert_eq!(index.0.len(), 2);
    assert_eq!(index.0[0].description, "a cat");
    assert_eq!(index.0[1], webp.entry);

    let upper = create_new_image(&config, Some("WEBP".to_string()), "loud".to_string()).unwrap();
    assert_eq!(upper.store, ImageStore::ConvertToWebp);
}

#[test]
fn new_image_needs_an_extension() {
    let config = config_setup(vec![]);
    assert!(create_new_image(&config, None, "no extension".to_string()).is_none());
}

#[test]
fn draft_of_a_given_image_entry() {
    let config = config_setup(vec![]);
    let draft = draft_new_image(&config, image_entry("x", SAMPLE, Some("webp")), "png");
    assert_eq!(
        draft.image_file_path,
        "./images/01234567-89ab-cdef-0123-456789abcdef.webp"
    );
    assert_eq!(draft.store, ImageStore::ConvertToWebp);
    assert_eq!(draft.entry, image_entry("x", SAMPLE, Some("webp")));
}

#[test]
fn image_entry_new_keeps_its_fields() {
    let e = ImageEntry::new("desc".to_string(), Some("png".to_string()));
    assert_eq!(e.description, "desc");
    assert_eq!(e.ext, Some("png".to_string()));
    let copy = e.clone();
    assert_eq!(copy.id, e.id);
}

#[test]
fn entry_with_id_finds_the_first_match() {
    let index = Index(vec![
        image_entry("a", 1, Some("png")),
        image_entry("b", 2, Some("jpg")),
        image_entry("c", 2, None),
    ]);
    let found = index.entry_with_id(EntryId(2)).unwrap();
    assert_eq!(found.description, "b");
    assert_eq!(found.ext, Some("jpg".to_string()));
    assert!(index.entry_with_id(EntryId(3)).is_none());
    assert!(Index::<ImageEntry>(vec![]).entry_with_id(EntryId(1)).is_none());
}

#[test]
fn orientation_fixes() {
    assert_eq!(orientation_fix(Some(1)), OrientationFix::Keep);
    assert_eq!(orientation_fix(Some(2)), OrientationFix::FlipHorizontal);
    assert_eq!(orientation_fix(Some(3)), OrientationFix::Rotate180);
    assert_eq!(orientation_fix(Some(4)), OrientationFix::Rotate180FlipHorizontal);
    assert_eq!(orientation_fix(Some(5)), OrientationFix::Rotate90FlipHorizontal);
    assert_eq!(orientation_fix(Some(6)), OrientationFix::Rotate90);
    assert_eq!(orientation_fix(Some(7)), OrientationFix::Rotate270FlipHorizontal);
    assert_eq!(orientation_fix(Some(8)), OrientationFix::Rotate270);
    assert_eq!(orientation_fix(Some(0)), OrientationFix::Keep);
    assert_eq!(orientation_fix(Some(9)), OrientationFix::Keep);
    assert_eq!(orientation_fix(None), OrientationFix::Keep);
}

#[test]
fn cache_is_bypassed_only_on_request() {
    assert!(use_cache(None));
    assert!(use_cache(Some(false)));
    assert!(!use_cache(Some(true)));
}

#[test]
fn image_page_html() {
    assert_eq!(
        image_tag(sample_id(), None),
        "<img src=\"/image/raw/01234567-89ab-cdef-0123-456789abcdef\" width=\"500\" height=\"600\">"
    );
    assert_eq!(
        image_tag(sample_id(), Some(false)),
        "<img src=\"/image/raw/01234567-89ab-cdef-0123-456789abcdef\" width=\"500\" height=\"600\">"
    );
    assert_eq!(
        image_tag(sample_id(), Some(true)),
        "<img src=\"/image/raw/01234567-89ab-cdef-0123-456789abcdef?no_cache=true\" width=\"500\" height=\"600\">"
    );
}

#[test]
fn article_page_text() {
    let article = Article { content: "# Hi\nthere".to_string() };
    assert_eq!(article_page_content(Some(article)), "# Hi\nthere");
    assert_eq!(article_page_content(None), "Article Not found");
}

#[test]
fn listing_pages() {
    let page = index_page(Some(Index(vec![entry("one", 1)])));
    match page {
        IndexPage::Listing(index) => assert_eq!(index.0[0].title, "one"),
        IndexPage::Unavailable(_) => panic!("expected a listing"),
    }
    match index_page::<ArticleEntry>(None) {
        IndexPage::Unavailable(text) => assert_eq!(text, "Unable to load index"),
        IndexPage::Listing(_) => panic!("expected the notice"),
    }
}

#[test]
fn content_types() {
    assert_eq!(content_type_for_ext("webp"), "image/webp");
    assert_eq!(content_type_for_ext("png"), "image/png");
    assert_eq!(content_type_for_ext("jpg"), "image/jpeg");
    assert_eq!(content_type_for_ext(""), "application/octet-stream");
    assert_eq!(content_type_for_ext("no-such-extension"), "application/octet-stream");
}

#[test]
fn raw_image_replies() {
    match raw_image_reply(Some(vec![1u8, 2, 3]), Some("webp".to_string())) {
        RawImageReply::Image { content_type, content } => {
            assert_eq!(content_type, "image/webp");
            assert_eq!(content, vec![1, 2, 3]);
        }
        RawImageReply::Missing(_) => panic!("expected the image"),
    }
    match raw_image_reply::<Vec<u8>>(None, Some("webp".to_string())) {
        RawImageReply::Missing(text) => assert_eq!(text, "Article Not found"),
        RawImageReply::Image { .. } => panic!("expected the notice"),
    }
}

#[test]
fn image_paths_of_distinct_ids_differ() {
    assert_ne!(
        image_file_path("./images", EntryId(7)),
        image_file_path("./images", EntryId(7 << 100))
    );
}

#[test]
fn default_local_files_are_the_fetched_files() {
    let config = config_setup(vec![]);
    let id = EntryId::new_random();
    assert_eq!(
        article_file_path(&config.article_index_base_path, id),
        format!("./{}", article_repo_path(id))
    );
    assert_eq!(
        image_file_path(&config.image_index_base_path, id),
        format!("./{}", image_repo_path(id, &Some("webp".to_string())))
    );
}

#[test]
fn config_setup_takes_given_settings() {
    let config = config_setup(vec![("gh_owner".to_string(), "alice".to_string())]);
    assert_eq!(config.gh_owner, "alice");
    assert_eq!(config.gh_repo, "bloggyblog");
    assert_eq!(config.article_index_base_path, "./articles");
    assert_eq!(config.article_index_file_path, "./articles/index.json");

    let config = config_setup(vec![
        ("gh_repo".to_string(), "first".to_string()),
        ("unknown_setting".to_string(), "ignored".to_string()),
        ("image_index_base_path".to_string(), "/srv/images".to_string()),
        ("gh_repo".to_string(), "second".to_string()),
        ("".to_string(), "ignored".to_string()),
        ("gh.owner".to_string(), "ignored".to_string()),
    ]);
    assert_eq!(config.gh_repo, "second");
    assert_eq!(config.image_index_base_path, "/srv/images");
    assert_eq!(config.gh_owner, "josh-gree");
    assert_eq!(config.image_index_file_path, "./images/index.json");
    assert_eq!(config.gh_article_index_file_path, "articles/index.json");
}

#[test]
fn config_equality() {
    assert_eq!(config_setup(vec![]), config_setup(vec![]));
    assert_ne!(
        config_setup(vec![]),
        config_setup(vec![("gh_owner".to_string(), "alice".to_string())])
    );
}

/// A little-endian TIFF file with one field, `Orientation` (tag 0x0112,
/// SHORT), holding `value`.
fn tiff_with_orientation(value: u8) -> Vec<u8> {
    vec![
        0x49, 0x49, 0x2A, 0x00, 0x08, 0x00, 0x00, 0x00, // header, IFD at 8
        0x01, 0x00, // one entry
        0x12, 0x01, 0x03, 0x00, 0x01, 0x00, 0x00, 0x00, value, 0x00, 0x00, 0x00,
        0x00, 0x00, 0x00, 0x00, // no next IFD
    ]
}

#[test]
fn orientation_of_files() {
    assert_eq!(
        orientation_fix_of_file(&tiff_with_orientation(6)),
        Some(OrientationFix::Rotate90)
    );
    assert_eq!(
        orientation_fix_of_file(&tiff_with_orientation(3)),
        Some(OrientationFix::Rotate180)
    );
    assert_eq!(
        orientation_fix_of_file(&tiff_with_orientation(9)),
        Some(OrientationFix::Keep)
    );
    assert_eq!(orientation_fix_of_file(b"not an image at all"), None);
    assert_eq!(orientation_fix_of_file(&[]), None);
}

#[test]
fn image_holds_its_bytes() {
    let image = Image { content: bytes::Bytes::from_static(b"\x00\x01") };
    assert_eq!(image.clone(), image);
    assert_eq!(image.content.len(), 2);
}
