//! Articles: Markdown files named by the identifier of their index entry.

use crate::entry_id::{is_v4_bits, lemma_unhyphenate_uuid_text, lemma_uuid_text_injective, uuid_text, EntryId};
use crate::remote::{cdn_url, cdn_url_text};
use crate::settings::{default_article_index_base_path, AppConfig};
use vstd::prelude::*;

verus! {

/// An article as the index lists it.
#[derive(Debug, PartialEq, Eq)]
pub struct ArticleEntry {
    pub title: String,
    pub id: EntryId,
}

/// The Markdown text of an article.
#[derive(Debug, Clone, PartialEq, Eq)]
pub struct Article {
    pub content: String,
}

impl Clone for ArticleEntry {
    fn clone(&self) -> (copy: ArticleEntry)
        ensures
            copy == *self,
    {
        ArticleEntry { title: self.title.clone(), id: self.id }
    }
}

impl ArticleEntry {
    /// A new entry with the given title and a fresh random identifier.
    pub fn new(title: String) -> (entry: ArticleEntry)
        ensures
            entry.title == title,
            is_v4_bits(entry.id.0),
    {
        ArticleEntry { id: EntryId::new_random(), title }
    }
}

/// The name of an article's file: its identifier and `.md`.
pub open spec fn article_file_name(id: EntryId) -> Seq<char> {
    uuid_text(id.0) + ".md"@
}

/// The path of an article's file in the directory `base`.
pub open spec fn local_article_path(base: Seq<char>, id: EntryId) -> Seq<char> {
    base + "/"@ + article_file_name(id)
}

/// The path of an article's file in the repository.
pub open spec fn repo_article_path(id: EntryId) -> Seq<char> {
    "articles/"@ + article_file_name(id)
}

/// The Markdown that a new article starts with: its title as a heading.
pub open spec fn article_heading(title: Seq<char>) -> Seq<char> {
    "# "@ + title
}

/// An article's local path is the directory, a slash, the identifier's whole
/// text and `.md`; its repository path is `articles/`, the identifier's text
/// and `.md`.
pub proof fn lemma_article_path_shape(base: Seq<char>, id: EntryId)
    ensures
        local_article_path(base, id).len() == base.len() + 40,
        local_article_path(base, id).subrange(0, base.len() as int) == base,
        local_article_path(base, id)[base.len() as int] == '/',
        local_article_path(base, id).subrange(base.len() + 1int, base.len() + 37int) == uuid_text(
            id.0,
        ),
        local_article_path(base, id).subrange(base.len() + 37int, base.len() + 40int) == ".md"@,
        repo_article_path(id).len() == 48,
        repo_article_path(id).subrange(0, 9) == "articles/"@,
        repo_article_path(id).subrange(9, 45) == uuid_text(id.0),
        repo_article_path(id).subrange(45, 48) == ".md"@,
{
    lemma_unhyphenate_uuid_text(id.0);
    reveal_strlit("/");
    reveal_strlit(".md");
    reveal_strlit("articles/");
    let l = local_article_path(base, id);
    let b = base.len() as int;
    assert(l.subrange(0, b) =~= base);
    assert(l.subrange(b + 1, b + 37) =~= uuid_text(id.0));
    assert(l.subrange(b + 37, b + 40) =~= ".md"@);
    let r = repo_article_path(id);
    assert(r.subrange(0, 9) =~= "articles/"@);
    assert(r.subrange(9, 45) =~= uuid_text(id.0));
    assert(r.subrange(45, 48) =~= ".md"@);
}

/// A new article's heading is `# ` followed by the whole title, whatever its
/// length: two characters longer than the title, and the title is what
/// follows them.
pub proof fn lemma_heading_holds_whole_title(title: Seq<char>)
    ensures
        article_heading(title).len() == title.len() + 2,
        article_heading(title)[0] == '#',
        article_heading(title)[1] == ' ',
        article_heading(title).subrange(2, title.len() + 2int) == title,
{
    reveal_strlit("# ");
    assert(article_heading(title).subrange(2, title.len() + 2int) =~= title);
}

/// The path of an article's file in the directory `base`:
/// `{base}/{id}.md`.
pub fn article_file_path(base: &str, id: EntryId) -> (path: String)
    ensures
        path@ == local_article_path(base@, id),
{
    let text = id.text();
    let mut path = String::from_str(base);
    path.append("/");
    path.append(text.as_str());
    path.append(".md");
    path
}

/// The path of an article's file in the repository: `articles/{id}.md`.
pub fn article_repo_path(id: EntryId) -> (path: String)
    ensures
        path@ == repo_article_path(id),
{
    let text = id.text();
    let mut path = String::from_str("articles/");
    path.append(text.as_str());
    path.append(".md");
    path
}

/// The address from which an article is fetched: its file in the configured
/// repository at commit `sha`, through the jsDelivr mirror.
pub fn article_url(config: &AppConfig, sha: &str, id: EntryId) -> (url: String)
    ensures
        url@ == cdn_url_text(config.gh_owner@, config.gh_repo@, sha@, repo_article_path(id)),
{
    let path = article_repo_path(id);
    cdn_url(config.gh_owner.as_str(), config.gh_repo.as_str(), sha, path.as_str())
}

/// The text that a new article's file is created with: `# {title}`.
pub fn article_file_contents(entry: &ArticleEntry) -> (contents: String)
    ensures
        contents@ == article_heading(entry.title@),
        contents@.len() == entry.title@.len() + 2,
        contents@[0] == '#' && contents@[1] == ' ',
        contents@.subrange(2, contents@.len() as int) == entry.title@,
{
    proof {
        lemma_heading_holds_whole_title(entry.title@);
    }
    let mut contents = String::from_str("# ");
    contents.append(entry.title.as_str());
    contents
}

/// The error that a missing article is answered with.
pub open spec fn article_missing_error() -> Seq<char> {
    "jsdeliver 404d"@
}

/// What the status of the mirror's answer to an article request means: a
/// `404` is an error, any other status lets the body be read as the article.
pub fn check_article_status(status: u16) -> (r: Result<(), String>)
    ensures
        r is Err <==> status == 404,
        r is Err ==> r->Err_0@ == article_missing_error(),
        r is Err ==> r->Err_0@ == "jsdeliver 404d"@,
{
    if status == 404 {
        Err(String::from_str("jsdeliver 404d"))
    } else {
        Ok(())
    }
}

/// The file that adding an article creates, before the index is updated.
#[derive(Debug)]
pub struct ArticleDraft {
    /// The index entry of the new article.
    pub entry: ArticleEntry,
    /// Where the article's file is created.
    pub article_file_path: String,
    /// What the article's file is created with.
    pub article_file_contents: String,
    /// Where the index that the entry is then added to is stored.
    pub index_file_path: String,
}

/// The file that adding the article `entry` creates: under the article
/// directory, named by the entry's identifier, holding the title as a
/// heading; and where the index that the entry joins is stored.
pub fn draft_new_article(config: &AppConfig, entry: ArticleEntry) -> (draft: ArticleDraft)
    ensures
        draft.entry == entry,
        draft.article_file_path@ == local_article_path(config.article_index_base_path@, entry.id),
        draft.article_file_contents@ == article_heading(entry.title@),
        draft.article_file_contents@.len() == entry.title@.len() + 2,
        draft.article_file_contents@.subrange(2, draft.article_file_contents@.len() as int)
            == entry.title@,
        draft.index_file_path@ == config.article_index_file_path@,
{
    let article_file_path = article_file_path(config.article_index_base_path.as_str(), entry.id);
    let article_file_contents = article_file_contents(&entry);
    let index_file_path = config.article_index_file_path.clone();
    ArticleDraft { entry, article_file_path, article_file_contents, index_file_path }
}

/// Adds an article titled `title`: a new entry with a fresh identifier, and
/// the article's file under the article directory, named by that identifier
/// and holding the title as a heading. The entry then joins the index stored
/// at `index_file_path` (see `Index::extended`).
pub fn create_new_article(config: &AppConfig, title: String) -> (draft: ArticleDraft)
    ensures
        draft.entry.title == title,
        is_v4_bits(draft.entry.id.0),
        draft.article_file_path@ == local_article_path(
            config.article_index_base_path@,
            draft.entry.id,
        ),
        draft.article_file_contents@ == article_heading(title@),
        draft.article_file_contents@.len() == title@.len() + 2,
        draft.article_file_contents@.subrange(2, draft.article_file_contents@.len() as int)
            == title@,
        draft.index_file_path@ == config.article_index_file_path@,
{
    let entry = ArticleEntry::new(title);
    draft_new_article(config, entry)
}

/// Two entries with different identifiers never share a file: neither in the
/// local article directory nor in the repository.
pub proof fn lemma_article_paths_distinct(base: Seq<char>, a: EntryId, b: EntryId)
    requires
        a != b,
    ensures
        local_article_path(base, a) != local_article_path(base, b),
        repo_article_path(a) != repo_article_path(b),
{
    lemma_unhyphenate_uuid_text(a.0);
    lemma_unhyphenate_uuid_text(b.0);
    reveal_strlit("/");
    reveal_strlit(".md");
    reveal_strlit("articles/");
    let start: int = base.len() + 1int;
    if local_article_path(base, a) == local_article_path(base, b) {
        assert(local_article_path(base, a).subrange(start, start + 36) =~= uuid_text(a.0));
        assert(local_article_path(base, b).subrange(start, start + 36) =~= uuid_text(b.0));
        lemma_uuid_text_injective(a.0, b.0);
    }
    if repo_article_path(a) == repo_article_path(b) {
        assert(repo_article_path(a).subrange(9, 45) =~= uuid_text(a.0));
        assert(repo_article_path(b).subrange(9, 45) =~= uuid_text(b.0));
        lemma_uuid_text_injective(a.0, b.0);
    }
}

/// With the default configuration, the file that adding an article creates is,
/// relative to the repository's root, the file that fetching that article
/// reads: `./articles/{id}.md` locally, `articles/{id}.md` in the repository.
pub proof fn lemma_default_article_file_is_fetched_file(id: EntryId)
    ensures
        local_article_path(default_article_index_base_path(), id) == "./"@ + repo_article_path(
            id,
        ),
{
    reveal_strlit("./articles");
    reveal_strlit("/");
    reveal_strlit("./");
    reveal_strlit("articles/");
    assert(local_article_path(default_article_index_base_path(), id) =~= "./"@ + repo_article_path(
        id,
    ));
}

} // verus!
