//! The already-parsed command line: one verb per invocation plus its typed
//! flags. The grammar and flag names belong to the argument-parser
//! collaborator outside this crate; the orchestration core consumes only
//! these typed fields.

use vstd::prelude::*;

verus! {

/// One parsed invocation: global flags plus the verb.
#[derive(Debug)]
pub struct Opt {
    pub debug_level: i8,
    /// Show the exact user query at the top of the launcher's item list.
    pub query_as_item: bool,
    pub cmd: SubCommand,
}

/// The verbs and their typed options.
#[derive(Debug)]
pub enum SubCommand {
    /// Set and/or display the persisted settings; the only verb that needs
    /// no bookmark store.
    Config {
        /// Show all settings after applying any given options.
        display: bool,
        /// Set the API authorization token.
        auth_token: Option<String>,
        /// Number of bookmarks to show in the launcher's window.
        number_pins: Option<u8>,
        /// Number of tags to show in the launcher's window.
        number_tags: Option<u8>,
        /// Make all new bookmarks public/shared by default.
        shared: Option<bool>,
        /// Set all new bookmarks' toread flag by default.
        toread: Option<bool>,
        /// Enable fuzzy searching of tags/bookmarks.
        fuzzy: Option<bool>,
        /// Only look up the query in the tag field of bookmarks.
        tags_only: Option<bool>,
        /// Update the local cache files after posting a bookmark.
        auto_update: Option<bool>,
        /// Show popular tags for the URL when posting a new bookmark.
        suggest_tags: Option<bool>,
        /// Check whether the current browser page is already bookmarked.
        check_bookmarked_page: Option<bool>,
        /// Show urls (rather than tags) in search results' subtitles.
        show_url_vs_tags: Option<bool>,
    },
    /// List all bookmarks (default) or tags.
    List {
        /// Only list tags.
        tags: bool,
        /// Retrieve tag suggestions from the remote service.
        suggest: Option<bool>,
        /// Optional query word used to narrow the output list.
        query: Option<String>,
        /// Do not check whether the current page is bookmarked.
        no_existing_page: bool,
    },
    /// Create a bookmark for the current page of the active browser.
    Post {
        /// Space-delimited list of tags for the url.
        tags: Vec<String>,
        /// Extra description note for the url.
        description: Option<String>,
        /// Mark this bookmark shared (overrides the stored setting).
        shared: Option<bool>,
        /// Mark this bookmark as toread (overrides the stored setting).
        toread: Option<bool>,
    },
    /// Delete a bookmark or a tag.
    Delete {
        /// Url/bookmark to be deleted.
        url: Option<String>,
        /// Tag to be deleted.
        tag: Option<String>,
    },
    /// Rename a tag.
    Rename {
        /// Exactly two tags: the old name and the new name.
        tags: Vec<String>,
    },
    /// Search bookmarks.
    Search {
        /// Only search within tags.
        tags: bool,
        /// Only search within the title field.
        title: bool,
        /// Only search within the description field.
        description: bool,
        /// Only search within the url field.
        url: bool,
        /// Output only the URLs of the results, one per line.
        showonlyurl: bool,
        /// Find bookmarks with a tag exactly matching the (one-word) query.
        exacttag: bool,
        /// Query strings looked for in the selected fields; bookmarks
        /// matching all of them are returned.
        query: Vec<String>,
    },
    /// Refresh the local cache by a full download from the remote service.
    Update,
    /// Check for or download the latest release of the tool itself.
    SelfUpdate {
        /// Force an immediate check for a new version.
        check: bool,
        /// Download the latest release and stage it in the cache folder.
        download: bool,
    },
}

} // verus!
