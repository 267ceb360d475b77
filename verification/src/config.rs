//! The persisted user configuration: loading, defaulting, merging explicit
//! updates, and echoing the effective settings. The on-disk encoding belongs
//! to a collaborator outside this crate; the store here works on the decoded
//! record (present, absent, or unreadable) and its caller persists every
//! merged result.

use vstd::prelude::*;

use crate::cli::SubCommand;
use crate::errors::AlfredError;
use crate::output::bool_str;
use crate::output::bool_string;
use crate::output::dec_u8;
use crate::output::u8_to_decimal;

verus! {

/// The user-configurable settings of one installation.
#[derive(Debug)]
pub struct Config {
    /// Remote-service authorization token; required before any bookmark
    /// operation is attempted.
    pub auth_token: String,
    /// How many bookmarks to show in the launcher's window.
    pub bookmark_count: u8,
    /// How many tags to show in the launcher's window.
    pub tag_count: u8,
    /// Make new bookmarks public/shared by default.
    pub shared_by_default: bool,
    /// Set new bookmarks' toread flag by default.
    pub toread_by_default: bool,
    /// Search tags/bookmarks fuzzily.
    pub fuzzy_search: bool,
    /// Only look up queries in the tag field of bookmarks.
    pub tags_only_search: bool,
    /// Refresh the local cache after a successful mutating operation.
    pub auto_update_cache: bool,
    /// Show popular tags for the URL when posting a new bookmark.
    pub suggest_tags: bool,
    /// Check whether the current browser page is already bookmarked.
    pub check_bookmarked_page: bool,
    /// Show urls (rather than tags) in search results' subtitles.
    pub show_url_vs_tags: bool,
}

/// Mathematical model of a `Config`.
pub struct ConfigV {
    pub auth_token: Seq<char>,
    pub bookmark_count: u8,
    pub tag_count: u8,
    pub shared_by_default: bool,
    pub toread_by_default: bool,
    pub fuzzy_search: bool,
    pub tags_only_search: bool,
    pub auto_update_cache: bool,
    pub suggest_tags: bool,
    pub check_bookmarked_page: bool,
    pub show_url_vs_tags: bool,
}

impl View for Config {
    type V = ConfigV;

    open spec fn view(&self) -> ConfigV {
        ConfigV {
            auth_token: self.auth_token@,
            bookmark_count: self.bookmark_count,
            tag_count: self.tag_count,
            shared_by_default: self.shared_by_default,
            toread_by_default: self.toread_by_default,
            fuzzy_search: self.fuzzy_search,
            tags_only_search: self.tags_only_search,
            auto_update_cache: self.auto_update_cache,
            suggest_tags: self.suggest_tags,
            check_bookmarked_page: self.check_bookmarked_page,
            show_url_vs_tags: self.show_url_vs_tags,
        }
    }
}

/// The built-in defaults: both display limits are ten; every behavior flag
/// is off except cache auto-update and tag suggestions; no token is set.
pub open spec fn default_config_v() -> ConfigV {
    ConfigV {
        auth_token: Seq::<char>::empty(),
        bookmark_count: 10,
        tag_count: 10,
        shared_by_default: false,
        toread_by_default: false,
        fuzzy_search: false,
        tags_only_search: false,
        auto_update_cache: true,
        suggest_tags: true,
        check_bookmarked_page: false,
        show_url_vs_tags: false,
    }
}

impl Default for Config {
    /// The built-in default settings, applied on a first-time write for
    /// every field the user did not supply.
    fn default() -> (r: Config)
        ensures
            r@ == default_config_v(),
    {
        Config {
            auth_token: String::new(),
            bookmark_count: 10,
            tag_count: 10,
            shared_by_default: false,
            toread_by_default: false,
            fuzzy_search: false,
            tags_only_search: false,
            auto_update_cache: true,
            suggest_tags: true,
            check_bookmarked_page: false,
            show_url_vs_tags: false,
        }
    }
}

impl Clone for Config {
    fn clone(&self) -> (r: Config)
        ensures
            r@ == self@,
    {
        Config {
            auth_token: self.auth_token.clone(),
            bookmark_count: self.bookmark_count,
            tag_count: self.tag_count,
            shared_by_default: self.shared_by_default,
            toread_by_default: self.toread_by_default,
            fuzzy_search: self.fuzzy_search,
            tags_only_search: self.tags_only_search,
            auto_update_cache: self.auto_update_cache,
            suggest_tags: self.suggest_tags,
            check_bookmarked_page: self.check_bookmarked_page,
            show_url_vs_tags: self.show_url_vs_tags,
        }
    }
}

/// The effective settings rendered as key/value lines for echoing back to
/// the user: each key names a setting, each value renders its current state.
pub open spec fn display_spec(c: ConfigV) -> Seq<(Seq<char>, Seq<char>)> {
    seq![
        ("auth_token"@, c.auth_token),
        ("bookmark_count"@, dec_u8(c.bookmark_count)),
        ("tag_count"@, dec_u8(c.tag_count)),
        ("shared_by_default"@, bool_str(c.shared_by_default)),
        ("toread_by_default"@, bool_str(c.toread_by_default)),
        ("fuzzy_search"@, bool_str(c.fuzzy_search)),
        ("tags_only_search"@, bool_str(c.tags_only_search)),
        ("auto_update_cache"@, bool_str(c.auto_update_cache)),
        ("suggest_tags"@, bool_str(c.suggest_tags)),
        ("check_bookmarked_page"@, bool_str(c.check_bookmarked_page)),
        ("show_url_vs_tags"@, bool_str(c.show_url_vs_tags)),
    ]
}

impl Config {
    /// Produces the current effective configuration as key/value lines for
    /// echoing back to the user; read-only.
    pub fn display(&self) -> (r: Vec<(String, String)>)
        ensures
            r@.len() == display_spec(self@).len(),
            forall|i: int|
                0 <= i < r@.len() ==> (#[trigger] r@[i]).0@ == display_spec(self@)[i].0 && r@[i].1@
                    == display_spec(self@)[i].1,
    {
        let mut r: Vec<(String, String)> = Vec::new();
        r.push(("auth_token".to_owned(), self.auth_token.clone()));
        r.push(("bookmark_count".to_owned(), u8_to_decimal(self.bookmark_count)));
        r.push(("tag_count".to_owned(), u8_to_decimal(self.tag_count)));
        r.push(("shared_by_default".to_owned(), bool_string(self.shared_by_default)));
        r.push(("toread_by_default".to_owned(), bool_string(self.toread_by_default)));
        r.push(("fuzzy_search".to_owned(), bool_string(self.fuzzy_search)));
        r.push(("tags_only_search".to_owned(), bool_string(self.tags_only_search)));
        r.push(("auto_update_cache".to_owned(), bool_string(self.auto_update_cache)));
        r.push(("suggest_tags".to_owned(), bool_string(self.suggest_tags)));
        r.push(("check_bookmarked_page".to_owned(), bool_string(self.check_bookmarked_page)));
        r.push(("show_url_vs_tags".to_owned(), bool_string(self.show_url_vs_tags)));
        r
    }
}

/// The fields the user explicitly supplied with the configuration verb;
/// a field left `None` keeps the stored value (or the default on a
/// first-time write).
#[derive(Debug)]
pub struct ConfigUpdates {
    pub auth_token: Option<String>,
    pub number_pins: Option<u8>,
    pub number_tags: Option<u8>,
    pub shared: Option<bool>,
    pub toread: Option<bool>,
    pub fuzzy: Option<bool>,
    pub tags_only: Option<bool>,
    pub auto_update: Option<bool>,
    pub suggest_tags: Option<bool>,
    pub check_bookmarked_page: Option<bool>,
    pub show_url_vs_tags: Option<bool>,
}

/// Mathematical model of `ConfigUpdates`.
pub struct ConfigUpdatesV {
    pub auth_token: Option<Seq<char>>,
    pub number_pins: Option<u8>,
    pub number_tags: Option<u8>,
    pub shared: Option<bool>,
    pub toread: Option<bool>,
    pub fuzzy: Option<bool>,
    pub tags_only: Option<bool>,
    pub auto_update: Option<bool>,
    pub suggest_tags: Option<bool>,
    pub check_bookmarked_page: Option<bool>,
    pub show_url_vs_tags: Option<bool>,
}

impl View for ConfigUpdates {
    type V = ConfigUpdatesV;

    open spec fn view(&self) -> ConfigUpdatesV {
        ConfigUpdatesV {
            auth_token: match self.auth_token {
                Some(t) => Some(t@),
                None => None,
            },
            number_pins: self.number_pins,
            number_tags: self.number_tags,
            shared: self.shared,
            toread: self.toread,
            fuzzy: self.fuzzy,
            tags_only: self.tags_only,
            auto_update: self.auto_update,
            suggest_tags: self.suggest_tags,
            check_bookmarked_page: self.check_bookmarked_page,
            show_url_vs_tags: self.show_url_vs_tags,
        }
    }
}

/// A supplied field, or the base value where none was supplied.
pub open spec fn supplied_or<T>(u: Option<T>, base: T) -> T {
    match u {
        Some(x) => x,
        None => base,
    }
}

/// The merge performed by `ConfigStore::apply`: each explicitly supplied
/// field replaces the base value; every other field keeps it.
pub open spec fn merge_config(base: ConfigV, u: ConfigUpdatesV) -> ConfigV {
    ConfigV {
        auth_token: supplied_or(u.auth_token, base.auth_token),
        bookmark_count: supplied_or(u.number_pins, base.bookmark_count),
        tag_count: supplied_or(u.number_tags, base.tag_count),
        shared_by_default: supplied_or(u.shared, base.shared_by_default),
        toread_by_default: supplied_or(u.toread, base.toread_by_default),
        fuzzy_search: supplied_or(u.fuzzy, base.fuzzy_search),
        tags_only_search: supplied_or(u.tags_only, base.tags_only_search),
        auto_update_cache: supplied_or(u.auto_update, base.auto_update_cache),
        suggest_tags: supplied_or(u.suggest_tags, base.suggest_tags),
        check_bookmarked_page: supplied_or(u.check_bookmarked_page, base.check_bookmarked_page),
        show_url_vs_tags: supplied_or(u.show_url_vs_tags, base.show_url_vs_tags),
    }
}

/// Merges the supplied updates over a base configuration.
pub fn merge(base: Config, u: &ConfigUpdates) -> (r: Config)
    ensures
        r@ == merge_config(base@, u@),
{
    Config {
        auth_token: match &u.auth_token {
            Some(t) => t.clone(),
            None => base.auth_token,
        },
        bookmark_count: match u.number_pins {
            Some(n) => n,
            None => base.bookmark_count,
        },
        tag_count: match u.number_tags {
            Some(n) => n,
            None => base.tag_count,
        },
        shared_by_default: match u.shared {
            Some(b) => b,
            None => base.shared_by_default,
        },
        toread_by_default: match u.toread {
            Some(b) => b,
            None => base.toread_by_default,
        },
        fuzzy_search: match u.fuzzy {
            Some(b) => b,
            None => base.fuzzy_search,
        },
        tags_only_search: match u.tags_only {
            Some(b) => b,
            None => base.tags_only_search,
        },
        auto_update_cache: match u.auto_update {
            Some(b) => b,
            None => base.auto_update_cache,
        },
        suggest_tags: match u.suggest_tags {
            Some(b) => b,
            None => base.suggest_tags,
        },
        check_bookmarked_page: match u.check_bookmarked_page {
            Some(b) => b,
            None => base.check_bookmarked_page,
        },
        show_url_vs_tags: match u.show_url_vs_tags {
            Some(b) => b,
            None => base.show_url_vs_tags,
        },
    }
}

/// Splits the configuration verb into its display request and the
/// explicitly supplied updates.
pub fn config_updates_of(cmd: SubCommand) -> (r: (bool, ConfigUpdates))
    requires
        cmd is Config,
    ensures
        cmd matches SubCommand::Config {
            display,
            auth_token,
            number_pins,
            number_tags,
            shared,
            toread,
            fuzzy,
            tags_only,
            auto_update,
            suggest_tags,
            check_bookmarked_page,
            show_url_vs_tags,
        } ==> ({
            &&& r.0 == display
            &&& r.1.auth_token == auth_token
            &&& r.1.number_pins == number_pins
            &&& r.1.number_tags == number_tags
            &&& r.1.shared == shared
            &&& r.1.toread == toread
            &&& r.1.fuzzy == fuzzy
            &&& r.1.tags_only == tags_only
            &&& r.1.auto_update == auto_update
            &&& r.1.suggest_tags == suggest_tags
            &&& r.1.check_bookmarked_page == check_bookmarked_page
            &&& r.1.show_url_vs_tags == show_url_vs_tags
        }),
{
    match cmd {
        SubCommand::Config {
            display,
            auth_token,
            number_pins,
            number_tags,
            shared,
            toread,
            fuzzy,
            tags_only,
            auto_update,
            suggest_tags,
            check_bookmarked_page,
            show_url_vs_tags,
        } => (
            display,
            ConfigUpdates {
                auth_token,
                number_pins,
                number_tags,
                shared,
                toread,
                fuzzy,
                tags_only,
                auto_update,
                suggest_tags,
                check_bookmarked_page,
                show_url_vs_tags,
            },
        ),
        _ => unreached(),
    }
}

/// The decoded state of the persisted configuration record.
#[derive(Debug)]
pub enum StoredConfig {
    /// No configuration has ever been saved.
    Missing,
    /// A record exists but could not be read or parsed.
    Corrupt,
    /// The decoded record.
    Present(Config),
}

/// Mathematical model of `StoredConfig`.
pub enum StoredConfigV {
    Missing,
    Corrupt,
    Present(ConfigV),
}

impl View for StoredConfig {
    type V = StoredConfigV;

    open spec fn view(&self) -> StoredConfigV {
        match self {
            StoredConfig::Missing => StoredConfigV::Missing,
            StoredConfig::Corrupt => StoredConfigV::Corrupt,
            StoredConfig::Present(c) => StoredConfigV::Present(c@),
        }
    }
}

/// The base an update is merged over: the stored configuration where one
/// exists, the built-in defaults on a first-time write.
pub open spec fn apply_base(s: StoredConfigV) -> ConfigV
    recommends
        !(s is Corrupt),
{
    match s {
        StoredConfigV::Present(c) => c,
        _ => default_config_v(),
    }
}

/// Loads, merges and hands back the persisted settings. The caller owns the
/// on-disk encoding: it decodes the record into `stored` before the store is
/// used, and durably persists the merged record after every `apply`.
#[derive(Debug)]
pub struct ConfigStore {
    pub stored: StoredConfig,
}

impl ConfigStore {
    /// Reads the persisted configuration. An absent record is the distinct,
    /// user-recoverable `MissingConfigFile`; a record that exists but cannot
    /// be parsed is `ConfigFileErr`.
    pub fn load(&self) -> (r: Result<Config, AlfredError>)
        ensures
            self.stored matches StoredConfig::Present(c) ==> (r matches Ok(rc) && rc@ == c@),
            self.stored is Missing ==> (r matches Err(e) && e is MissingConfigFile),
            self.stored is Corrupt ==> (r matches Err(e) && e is ConfigFileErr),
    {
        match &self.stored {
            StoredConfig::Present(c) => Ok(c.clone()),
            StoredConfig::Missing => Err(AlfredError::MissingConfigFile),
            StoredConfig::Corrupt => Err(AlfredError::ConfigFileErr),
        }
    }

    /// Merges only the explicitly supplied fields over the stored value (or
    /// over the built-in defaults on a first-time write), records the merged
    /// result as the new stored configuration, and returns it for the caller
    /// to persist atomically. A stored record that exists but cannot be
    /// parsed is refused rather than silently overwritten.
    pub fn apply(&mut self, u: &ConfigUpdates) -> (r: Result<Config, AlfredError>)
        ensures
            old(self).stored is Corrupt ==> (r matches Err(e) && e is ConfigFileErr && *final(self)
                == *old(self)),
            !(old(self).stored is Corrupt) ==> ({
                &&& r matches Ok(c)
                &&& c@ == merge_config(apply_base(old(self).stored@), u@)
                &&& final(self).stored matches StoredConfig::Present(sc)
                &&& sc@ == merge_config(apply_base(old(self).stored@), u@)
            }),
    {
        let base = match &self.stored {
            StoredConfig::Corrupt => {
                return Err(AlfredError::ConfigFileErr);
            },
            StoredConfig::Missing => Config::default(),
            StoredConfig::Present(c) => c.clone(),
        };
        let merged = merge(base, u);
        let copy = merged.clone();
        self.stored = StoredConfig::Present(merged);
        Ok(copy)
    }
}

/// Round trip of the configuration store: after an update is applied over
/// the stored record (or over the defaults when none existed), every
/// explicitly supplied field of the merged result equals the update, and
/// every unsupplied field equals the prior stored value or the built-in
/// default. A stored record that cannot be parsed is excluded: `apply`
/// refuses it.
pub proof fn lemma_config_round_trip(s: StoredConfigV, u: ConfigUpdatesV)
    requires
        !(s is Corrupt),
    ensures
        ({
            let base = apply_base(s);
            let m = merge_config(base, u);
            &&& (u.auth_token matches Some(t) ==> m.auth_token == t)
            &&& (u.auth_token is None ==> m.auth_token == base.auth_token)
            &&& (u.number_pins matches Some(n) ==> m.bookmark_count == n)
            &&& (u.number_pins is None ==> m.bookmark_count == base.bookmark_count)
            &&& (u.number_tags matches Some(n) ==> m.tag_count == n)
            &&& (u.number_tags is None ==> m.tag_count == base.tag_count)
            &&& (u.shared matches Some(b) ==> m.shared_by_default == b)
            &&& (u.shared is None ==> m.shared_by_default == base.shared_by_default)
            &&& (u.toread matches Some(b) ==> m.toread_by_default == b)
            &&& (u.toread is None ==> m.toread_by_default == base.toread_by_default)
            &&& (u.fuzzy matches Some(b) ==> m.fuzzy_search == b)
            &&& (u.fuzzy is None ==> m.fuzzy_search == base.fuzzy_search)
            &&& (u.tags_only matches Some(b) ==> m.tags_only_search == b)
            &&& (u.tags_only is None ==> m.tags_only_search == base.tags_only_search)
            &&& (u.auto_update matches Some(b) ==> m.auto_update_cache == b)
            &&& (u.auto_update is None ==> m.auto_update_cache == base.auto_update_cache)
            &&& (u.suggest_tags matches Some(b) ==> m.suggest_tags == b)
            &&& (u.suggest_tags is None ==> m.suggest_tags == base.suggest_tags)
            &&& (u.check_bookmarked_page matches Some(b) ==> m.check_bookmarked_page == b)
            &&& (u.check_bookmarked_page is None ==> m.check_bookmarked_page
                == base.check_bookmarked_page)
            &&& (u.show_url_vs_tags matches Some(b) ==> m.show_url_vs_tags == b)
            &&& (u.show_url_vs_tags is None ==> m.show_url_vs_tags == base.show_url_vs_tags)
            &&& (s matches StoredConfigV::Present(c) ==> base == c)
            &&& (s is Missing ==> base == default_config_v())
        }),
{
}

} // verus!
