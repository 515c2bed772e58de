//! Where the site's files are fetched from: the jsDelivr mirror of the GitHub
//! repository, pinned to a commit.

use vstd::prelude::*;

verus! {

/// The jsDelivr URL of `path` in `owner/repo` at commit `sha`.
pub open spec fn cdn_url_text(owner: Seq<char>, repo: Seq<char>, sha: Seq<char>, path: Seq<char>) -> Seq<
    char,
> {
    "https://cdn.jsdelivr.net/gh/"@ + owner + "/"@ + repo + "@"@ + sha + "/"@ + path
}

/// A mirror URL starts with jsDelivr's GitHub address and ends with the whole
/// path of the file, after the owner, the repository and the commit.
pub proof fn lemma_cdn_url_ends_with_path(
    owner: Seq<char>,
    repo: Seq<char>,
    sha: Seq<char>,
    path: Seq<char>,
)
    ensures
        cdn_url_text(owner, repo, sha, path).len() == 31 + owner.len() + repo.len() + sha.len()
            + path.len(),
        cdn_url_text(owner, repo, sha, path).subrange(0, 28) == "https://cdn.jsdelivr.net/gh/"@,
        cdn_url_text(owner, repo, sha, path).subrange(
            cdn_url_text(owner, repo, sha, path).len() - path.len(),
            cdn_url_text(owner, repo, sha, path).len() as int,
        ) == path,
        cdn_url_text(owner, repo, sha, path)[cdn_url_text(owner, repo, sha, path).len() - path.len()
            - 1] == '/',
{
    reveal_strlit("https://cdn.jsdelivr.net/gh/");
    reveal_strlit("/");
    reveal_strlit("@");
    let u = cdn_url_text(owner, repo, sha, path);
    assert(u.subrange(0, 28) =~= "https://cdn.jsdelivr.net/gh/"@);
    assert(u.subrange(u.len() - path.len(), u.len() as int) =~= path);
}

/// The jsDelivr URL of `path` in `owner/repo` at commit `sha`:
/// `https://cdn.jsdelivr.net/gh/{owner}/{repo}@{sha}/{path}`.
pub fn cdn_url(owner: &str, repo: &str, sha: &str, path: &str) -> (url: String)
    ensures
        url@ == cdn_url_text(owner@, repo@, sha@, path@),
{
    let mut url = String::from_str("https://cdn.jsdelivr.net/gh/");
    url.append(owner);
    url.append("/");
    url.append(repo);
    url.append("@");
    url.append(sha);
    url.append("/");
    url.append(path);
    url
}

/// The branch whose head commit the site is served from.
pub open spec fn served_branch() -> Seq<char> {
    "main"@
}

/// The name of the branch whose head commit the site is served from.
pub fn served_branch_name() -> (name: String)
    ensures
        name@ == served_branch(),
{
    String::from_str("main")
}

} // verus!
