//! The closed error taxonomy every in-session failure is mapped into before
//! it reaches the launcher, and the single mapping from bookmark-store
//! failures into it. No raw internal error text reaches the user-facing
//! surface except through the one-line `reason` payload of the `*Failed`
//! variants.

use vstd::prelude::*;
use vstd::string::StringExecFns;

verus! {

/// The closed set of failure kinds a command can surface to the launcher.
#[derive(Debug)]
pub enum AlfredError {
    /// The persisted configuration exists but could not be parsed.
    ConfigFileErr,
    /// No configuration has ever been saved.
    MissingConfigFile,
    /// A refresh of the local bookmark cache failed; carries one concise line.
    CacheUpdateFailed(String),
    /// Creating a remote bookmark failed; carries one concise line.
    Post2PinboardFailed(String),
    /// Deleting a remote bookmark or tag failed; carries one concise line.
    DeleteFailed(String),
    /// Catch-all for conditions that map to none of the above; the user sees
    /// a generic message.
    Other,
}

/// The single human-readable line rendered for each failure kind.
pub open spec fn error_message_spec(e: AlfredError) -> Seq<char> {
    match e {
        AlfredError::ConfigFileErr => "Config file may be corrupted"@,
        AlfredError::MissingConfigFile => "Missing config file (did you set API token?)"@,
        AlfredError::CacheUpdateFailed(s) => "Cache: "@ + s@,
        AlfredError::Post2PinboardFailed(s) => "Post: "@ + s@,
        AlfredError::DeleteFailed(s) => "Delete: "@ + s@,
        AlfredError::Other => "What did you do?"@,
    }
}

impl AlfredError {
    /// Renders the one human-readable line for this failure kind.
    pub fn message(&self) -> (r: String)
        ensures
            r@ == error_message_spec(*self),
    {
        match self {
            AlfredError::ConfigFileErr => "Config file may be corrupted".to_owned(),
            AlfredError::MissingConfigFile => "Missing config file (did you set API token?)".to_owned(),
            AlfredError::CacheUpdateFailed(s) => "Cache: ".to_owned().concat(s.as_str()),
            AlfredError::Post2PinboardFailed(s) => "Post: ".to_owned().concat(s.as_str()),
            AlfredError::DeleteFailed(s) => "Delete: ".to_owned().concat(s.as_str()),
            AlfredError::Other => "What did you do?".to_owned(),
        }
    }
}

/// A failure surfaced by the bookmark store, tagged by the operation that
/// failed, each carrying one concise reason line.
#[derive(Debug)]
pub enum StoreFailure {
    /// A full refresh of the local cache failed.
    Refresh(String),
    /// Creating a remote bookmark failed.
    Create(String),
    /// Deleting a remote bookmark or tag failed.
    Delete(String),
    /// Any other store failure; logged for diagnosis, shown generically.
    Other(String),
}

/// The one mapping from store failures into the closed taxonomy.
pub open spec fn map_failure_spec(f: StoreFailure) -> AlfredError {
    match f {
        StoreFailure::Refresh(m) => AlfredError::CacheUpdateFailed(m),
        StoreFailure::Create(m) => AlfredError::Post2PinboardFailed(m),
        StoreFailure::Delete(m) => AlfredError::DeleteFailed(m),
        StoreFailure::Other(_) => AlfredError::Other,
    }
}

/// Maps a bookmark-store failure into exactly one failure kind of the
/// closed taxonomy.
pub fn map_store_failure(f: StoreFailure) -> (r: AlfredError)
    ensures
        r == map_failure_spec(f),
{
    match f {
        StoreFailure::Refresh(m) => AlfredError::CacheUpdateFailed(m),
        StoreFailure::Create(m) => AlfredError::Post2PinboardFailed(m),
        StoreFailure::Delete(m) => AlfredError::DeleteFailed(m),
        StoreFailure::Other(_) => AlfredError::Other,
    }
}

/// Every distinct failure the bookmark store surfaces maps to exactly one
/// failure kind, and the rendered line for the mapped kind is non-empty.
pub proof fn lemma_error_mapping_complete(f: StoreFailure)
    ensures
        error_message_spec(map_failure_spec(f)).len() > 0,
        f matches StoreFailure::Refresh(m) ==> map_failure_spec(f)
            == AlfredError::CacheUpdateFailed(m),
        f matches StoreFailure::Create(m) ==> map_failure_spec(f)
            == AlfredError::Post2PinboardFailed(m),
        f matches StoreFailure::Delete(m) ==> map_failure_spec(f) == AlfredError::DeleteFailed(m),
        f is Other ==> map_failure_spec(f) == AlfredError::Other,
{
    lemma_error_message_nonempty(map_failure_spec(f));
}

/// Every failure kind renders to a non-empty human-readable line.
pub proof fn lemma_error_message_nonempty(e: AlfredError)
    ensures
        error_message_spec(e).len() > 0,
{
    reveal_strlit("Config file may be corrupted");
    reveal_strlit("Missing config file (did you set API token?)");
    reveal_strlit("Cache: ");
    reveal_strlit("Post: ");
    reveal_strlit("Delete: ");
    reveal_strlit("What did you do?");
}

} // verus!
