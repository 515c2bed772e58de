//! The engine's configuration: where the local indexes and files live and which
//! GitHub repository the site is served from. Each setting has a default,
//! which a value given from outside (a configuration file, the environment)
//! replaces.

use config::builder::DefaultState;
use config::{Config, ConfigBuilder, ConfigError};
use vstd::pervasive::unreached;
use vstd::prelude::*;

verus! {

/// Where the engine keeps its files and which repository it reads.
#[derive(Debug, Clone, PartialEq, Eq, Hash)]
pub struct AppConfig {
    pub article_index_file_path: String,
    pub article_index_base_path: String,
    pub image_index_file_path: String,
    pub image_index_base_path: String,
    pub gh_owner: String,
    pub gh_repo: String,
    pub gh_article_index_file_path: String,
}

impl Default for AppConfig {
    fn default() -> (config: AppConfig)
        ensures
            config.article_index_file_path@ == Seq::<char>::empty(),
            config.article_index_base_path@ == Seq::<char>::empty(),
            config.image_index_file_path@ == Seq::<char>::empty(),
            config.image_index_base_path@ == Seq::<char>::empty(),
            config.gh_owner@ == Seq::<char>::empty(),
            config.gh_repo@ == Seq::<char>::empty(),
            config.gh_article_index_file_path@ == Seq::<char>::empty(),
    {
        AppConfig {
            article_index_file_path: String::new(),
            article_index_base_path: String::new(),
            image_index_file_path: String::new(),
            image_index_base_path: String::new(),
            gh_owner: String::new(),
            gh_repo: String::new(),
            gh_article_index_file_path: String::new(),
        }
    }
}

/// A `config` builder in its synchronous state, held whole. What it holds is
/// told by `builder_defaults`, `builder_overrides` and `builder_plain`.
#[verifier::external_body]
pub struct SettingsBuilder {
    inner: ConfigBuilder<DefaultState>,
}

#[verifier::external_type_specification]
#[verifier::external_body]
pub struct ExConfig(Config);

#[verifier::external_type_specification]
#[verifier::external_body]
pub struct ExConfigError(ConfigError);

/// What setting a default or an override gives back: the builder, or
/// `config`'s error.
pub type BuilderResult = Result<SettingsBuilder, ConfigError>;

/// What building a configuration gives back.
pub type BuildResult = Result<Config, ConfigError>;

/// What looking up a string setting gives back.
pub type LookupResult = Result<String, ConfigError>;

/// A character that `config`'s path parser accepts in a plain key.
pub open spec fn is_key_char(c: char) -> bool {
    ||| ('a' <= c && c <= 'z')
    ||| ('A' <= c && c <= 'Z')
    ||| ('0' <= c && c <= '9')
    ||| c == ' '
    ||| c == '_'
    ||| c == '-'
}

/// A key that `config` reads as a single top-level identifier.
pub open spec fn is_config_key(k: Seq<char>) -> bool {
    &&& k.len() > 0
    &&& forall|i: int| 0 <= i < k.len() ==> #[trigger] is_key_char(k[i])
}

/// The string defaults that a configuration builder holds, by top-level key.
pub uninterp spec fn builder_defaults(b: SettingsBuilder) -> Map<Seq<char>, Seq<char>>;

/// The string overrides that a configuration builder holds, by top-level key.
pub uninterp spec fn builder_overrides(b: SettingsBuilder) -> Map<Seq<char>, Seq<char>>;

/// The builder holds no source, and each of its defaults and overrides is a
/// string under a top-level key (so `builder_defaults` and
/// `builder_overrides` tell all it holds).
pub uninterp spec fn builder_plain(b: SettingsBuilder) -> bool;

/// The string values of a built configuration, by top-level key.
pub uninterp spec fn config_strings(c: Config) -> Map<Seq<char>, Seq<char>>;

/// `config::Config::builder`: a builder with no default, no source and no
/// override.
#[verifier::external_body]
fn new_config_builder() -> (b: SettingsBuilder)
    ensures
        builder_defaults(b).dom() == Set::<Seq<char>>::empty(),
        builder_overrides(b).dom() == Set::<Seq<char>>::empty(),
        builder_plain(b),
{
    SettingsBuilder { inner: Config::builder() }
}

/// `config::ConfigBuilder::set_default` with a string value. A key made of
/// the characters of `is_key_char` parses as one identifier, so the call
/// succeeds and the builder then holds `value` as the default under `key`,
/// and nothing else changes. Of other keys nothing is stated.
#[verifier::external_body]
fn builder_set_default(b: SettingsBuilder, key: &str, value: &str) -> (r: BuilderResult)
    ensures
        is_config_key(key@) ==> r is Ok,
        is_config_key(key@) ==> builder_defaults(r.unwrap()) == builder_defaults(b).insert(
            key@,
            value@,
        ),
        is_config_key(key@) ==> builder_overrides(r.unwrap()) == builder_overrides(b),
        is_config_key(key@) && builder_plain(b) ==> builder_plain(r.unwrap()),
{
    match b.inner.set_default(key, value) {
        Ok(inner) => Ok(SettingsBuilder { inner }),
        Err(e) => Err(e),
    }
}

/// `config::ConfigBuilder::set_override` with a string value. A key made of
/// the characters of `is_key_char` parses as one identifier, so the call
/// succeeds and the builder then holds `value` as the override under `key`,
/// and nothing else changes. Of other keys nothing is stated.
#[verifier::external_body]
fn builder_set_override(b: SettingsBuilder, key: &str, value: &str) -> (r: BuilderResult)
    ensures
        is_config_key(key@) ==> r is Ok,
        is_config_key(key@) ==> builder_overrides(r.unwrap()) == builder_overrides(b).insert(
            key@,
            value@,
        ),
        is_config_key(key@) ==> builder_defaults(r.unwrap()) == builder_defaults(b),
        is_config_key(key@) && builder_plain(b) ==> builder_plain(r.unwrap()),
{
    match b.inner.set_override(key, value) {
        Ok(inner) => Ok(SettingsBuilder { inner }),
        Err(e) => Err(e),
    }
}

/// `config::ConfigBuilder::build`. With no source there is nothing to read
/// and nothing that can fail: the configuration holds the defaults, each
/// replaced by the override under the same key where there is one. Of other
/// builders nothing is stated.
#[verifier::external_body]
fn builder_build(b: SettingsBuilder) -> (r: BuildResult)
    ensures
        builder_plain(b) ==> r is Ok,
        builder_plain(b) ==> config_strings(r.unwrap()) == builder_defaults(b).union_prefer_right(
            builder_overrides(b),
        ),
{
    b.inner.build()
}

/// `config::Config::get_string`: the string stored under a top-level key.
/// Of keys that are not stored, or not plain, nothing is stated.
#[verifier::external_body]
fn config_get_string(c: &Config, key: &str) -> (r: LookupResult)
    ensures
        is_config_key(key@) && config_strings(*c).contains_key(key@) ==> r is Ok,
        is_config_key(key@) && config_strings(*c).contains_key(key@) ==> r.unwrap()@
            == config_strings(*c)[key@],
{
    c.get_string(key)
}

fn with_default(b: SettingsBuilder, key: &str, value: &str) -> (nb: SettingsBuilder)
    requires
        is_config_key(key@),
        builder_plain(b),
    ensures
        builder_defaults(nb) == builder_defaults(b).insert(key@, value@),
        builder_overrides(nb) == builder_overrides(b),
        builder_plain(nb),
{
    match builder_set_default(b, key, value) {
        Ok(nb) => nb,
        Err(_) => unreached(),
    }
}

fn with_override(b: SettingsBuilder, key: &str, value: &str) -> (nb: SettingsBuilder)
    requires
        is_config_key(key@),
        builder_plain(b),
    ensures
        builder_overrides(nb) == builder_overrides(b).insert(key@, value@),
        builder_defaults(nb) == builder_defaults(b),
        builder_plain(nb),
{
    match builder_set_override(b, key, value) {
        Ok(nb) => nb,
        Err(_) => unreached(),
    }
}

fn stored_string(c: &Config, key: &str) -> (s: String)
    requires
        is_config_key(key@),
        config_strings(*c).contains_key(key@),
    ensures
        s@ == config_strings(*c)[key@],
{
    match config_get_string(c, key) {
        Ok(s) => s,
        Err(_) => unreached(),
    }
}

/// The default place of the local article index.
pub open spec fn default_article_index_file_path() -> Seq<char> {
    "./articles/index.json"@
}

/// The default directory of local articles.
pub open spec fn default_article_index_base_path() -> Seq<char> {
    "./articles"@
}

/// The default place of the local image index.
pub open spec fn default_image_index_file_path() -> Seq<char> {
    "./images/index.json"@
}

/// The default directory of local images.
pub open spec fn default_image_index_base_path() -> Seq<char> {
    "./images"@
}

/// The default owner of the GitHub repository.
pub open spec fn default_gh_owner() -> Seq<char> {
    "josh-gree"@
}

/// The default GitHub repository.
pub open spec fn default_gh_repo() -> Seq<char> {
    "bloggyblog"@
}

/// The default path of the article index inside the repository.
pub open spec fn default_gh_article_index_file_path() -> Seq<char> {
    "articles/index.json"@
}

/// The names of the settings.
pub open spec fn is_setting_name(k: Seq<char>) -> bool {
    ||| k == "article_index_file_path"@
    ||| k == "article_index_base_path"@
    ||| k == "image_index_file_path"@
    ||| k == "image_index_base_path"@
    ||| k == "gh_owner"@
    ||| k == "gh_repo"@
    ||| k == "gh_article_index_file_path"@
}

/// The values that `overrides` gives to settings: for each setting name, the
/// value of the last pair with that name. Pairs whose name is no setting's
/// are left out.
pub open spec fn override_map(overrides: Seq<(String, String)>) -> Map<Seq<char>, Seq<char>>
    decreases overrides.len(),
{
    if overrides.len() == 0 {
        Map::empty()
    } else {
        let rest = override_map(overrides.drop_last());
        let pair = overrides.last();
        if is_setting_name(pair.0@) {
            rest.insert(pair.0@, pair.1@)
        } else {
            rest
        }
    }
}

/// A setting's value: the value that `overrides` gives to `name`, or
/// `default` where it gives none.
pub open spec fn setting(overrides: Seq<(String, String)>, name: Seq<char>, default: Seq<char>) -> Seq<
    char,
> {
    if override_map(overrides).contains_key(name) {
        override_map(overrides)[name]
    } else {
        default
    }
}

/// A setting named by the last pair takes that pair's value, whatever came
/// before it.
pub proof fn lemma_last_pair_wins(
    overrides: Seq<(String, String)>,
    name: Seq<char>,
    default: Seq<char>,
)
    requires
        is_setting_name(name),
        overrides.len() > 0,
        overrides.last().0@ == name,
    ensures
        setting(overrides, name, default) == overrides.last().1@,
{
}

/// A setting that no pair names keeps its default; pairs that name other
/// settings, or no setting, do not touch it.
pub proof fn lemma_unnamed_setting_keeps_default(
    overrides: Seq<(String, String)>,
    name: Seq<char>,
    default: Seq<char>,
)
    requires
        forall|i: int| 0 <= i < overrides.len() ==> (#[trigger] overrides[i]).0@ != name,
    ensures
        setting(overrides, name, default) == default,
        !override_map(overrides).contains_key(name),
    decreases overrides.len(),
{
    if overrides.len() > 0 {
        let rest = overrides.drop_last();
        assert forall|i: int| 0 <= i < rest.len() implies (#[trigger] rest[i]).0@ != name by {
            assert(rest[i] == overrides[i]);
        }
        lemma_unnamed_setting_keeps_default(rest, name, default);
        assert(overrides.last() == overrides[overrides.len() - 1]);
    }
}

/// Pairs that name no setting change nothing: adding one after the others
/// leaves every setting as it was.
pub proof fn lemma_unknown_pair_ignored(
    overrides: Seq<(String, String)>,
    pair: (String, String),
    name: Seq<char>,
    default: Seq<char>,
)
    requires
        !is_setting_name(pair.0@),
    ensures
        setting(overrides.push(pair), name, default) == setting(overrides, name, default),
{
    assert(overrides.push(pair).drop_last() =~= overrides);
}

proof fn lemma_setting_names_are_keys(k: Seq<char>)
    requires
        is_setting_name(k),
    ensures
        is_config_key(k),
{
    reveal_strlit("article_index_file_path");
    reveal_strlit("article_index_base_path");
    reveal_strlit("image_index_file_path");
    reveal_strlit("image_index_base_path");
    reveal_strlit("gh_owner");
    reveal_strlit("gh_repo");
    reveal_strlit("gh_article_index_file_path");
}

fn is_setting_name_text(key: &str) -> (r: bool)
    ensures
        r == is_setting_name(key@),
{
    let k = String::from_str(key);
    k == String::from_str("article_index_file_path") || k == String::from_str(
        "article_index_base_path",
    ) || k == String::from_str("image_index_file_path") || k == String::from_str(
        "image_index_base_path",
    ) || k == String::from_str("gh_owner") || k == String::from_str("gh_repo") || k
        == String::from_str("gh_article_index_file_path")
}

/// The engine's configuration, as the `config` crate builds it: each setting
/// takes the value that `overrides` (pairs of a setting's name and a value,
/// read from a configuration file or the environment, later pairs winning)
/// gives it, or its default where none does. Pairs that name no setting are
/// ignored.
pub fn config_setup(overrides: Vec<(String, String)>) -> (config: AppConfig)
    ensures
        config.article_index_file_path@ == setting(
            overrides@,
            "article_index_file_path"@,
            default_article_index_file_path(),
        ),
        config.article_index_base_path@ == setting(
            overrides@,
            "article_index_base_path"@,
            default_article_index_base_path(),
        ),
        config.image_index_file_path@ == setting(
            overrides@,
            "image_index_file_path"@,
            default_image_index_file_path(),
        ),
        config.image_index_base_path@ == setting(
            overrides@,
            "image_index_base_path"@,
            default_image_index_base_path(),
        ),
        config.gh_owner@ == setting(overrides@, "gh_owner"@, default_gh_owner()),
        config.gh_repo@ == setting(overrides@, "gh_repo"@, default_gh_repo()),
        config.gh_article_index_file_path@ == setting(
            overrides@,
            "gh_article_index_file_path"@,
            default_gh_article_index_file_path(),
        ),
{
    proof {
        reveal_strlit("article_index_file_path");
        reveal_strlit("article_index_base_path");
        reveal_strlit("image_index_file_path");
        reveal_strlit("image_index_base_path");
        reveal_strlit("gh_owner");
        reveal_strlit("gh_repo");
        reveal_strlit("gh_article_index_file_path");
        // Keys of one length differ at the first letter of `file` or `base`.
        assert("article_index_file_path"@[14] != "article_index_base_path"@[14]);
        assert("image_index_file_path"@[12] != "image_index_base_path"@[12]);
    }
    let b = new_config_builder();
    let b = with_default(b, "article_index_file_path", "./articles/index.json");
    let b = with_default(b, "article_index_base_path", "./articles");
    let b = with_default(b, "image_index_file_path", "./images/index.json");
    let b = with_default(b, "image_index_base_path", "./images");
    let b = with_default(b, "gh_owner", "josh-gree");
    let b = with_default(b, "gh_repo", "bloggyblog");
    let mut b = with_default(b, "gh_article_index_file_path", "articles/index.json");
    let ghost defaults = builder_defaults(b);
    assert(builder_overrides(b) =~= override_map(overrides@.take(0)));
    let n = overrides.len();
    let mut i: usize = 0;
    while i < n
        invariant
            n == overrides@.len(),
            i <= n,
            builder_plain(b),
            builder_defaults(b) == defaults,
            builder_overrides(b) == override_map(overrides@.take(i as int)),
        decreases n - i,
    {
        let pair = &overrides[i];
        assert(overrides@.take(i + 1).drop_last() =~= overrides@.take(i as int));
        assert(overrides@.take(i + 1).last() == overrides@[i as int]);
        if is_setting_name_text(pair.0.as_str()) {
            proof {
                lemma_setting_names_are_keys(pair.0@);
            }
            b = with_override(b, pair.0.as_str(), pair.1.as_str());
        }
        i += 1;
    }
    assert(overrides@.take(n as int) =~= overrides@);
    let c = match builder_build(b) {
        Ok(c) => c,
        Err(_) => unreached(),
    };
    AppConfig {
        article_index_file_path: stored_string(&c, "article_index_file_path"),
        article_index_base_path: stored_string(&c, "article_index_base_path"),
        image_index_file_path: stored_string(&c, "image_index_file_path"),
        image_index_base_path: stored_string(&c, "image_index_base_path"),
        gh_owner: stored_string(&c, "gh_owner"),
        gh_repo: stored_string(&c, "gh_repo"),
        gh_article_index_file_path: stored_string(&c, "gh_article_index_file_path"),
    }
}

} // verus!
