//! The orchestration core of one invocation: planning the session from the
//! environment signals, the stored configuration and the parsed verb, deciding
//! which collaborator operation each verb demands, and enforcing the shared
//! follow-up policies — refresh the local cache exactly once after a
//! successful mutation when cache auto-update is on, always refresh for the
//! explicit resync verb, and map every failure into the closed taxonomy.
//!
//! The collaborators themselves (remote bookmark store, self-update checker,
//! output sink) are driven outside this crate: the caller performs each
//! planned operation and feeds its outcome back into the follow-up
//! functions here.

use vstd::prelude::*;
use vstd::string::StringExecFns;

use crate::cli::SubCommand;
use crate::config::Config;
use crate::config::ConfigStore;
use crate::config::ConfigV;
use crate::config::StoredConfig;
use crate::config::default_config_v;
use crate::env_gate::EnvSignals;
use crate::env_gate::all_signals_present;
use crate::env_gate::validate;
use crate::errors::AlfredError;
use crate::errors::StoreFailure;
use crate::errors::map_store_failure;
use crate::output::CommandResult;
use crate::output::Item;
use crate::output::message_item;
use crate::output::message_item_v;

verus! {

/// The session state of one invocation: the loaded configuration. The
/// bookmark-store and update-checker handles live with the caller, which
/// performs the operations this runner plans.
#[derive(Debug)]
pub struct Runner {
    pub config: Option<Config>,
}

impl Runner {
    /// The loaded configuration; meaningful only when one is present.
    pub open spec fn current_config(self) -> ConfigV
        recommends
            self.config is Some,
    {
        match self.config {
            Some(c) => c@,
            None => default_config_v(),
        }
    }
}

/// The verbs that mutate the remote store: create, delete, rename.
pub open spec fn is_mutating(cmd: SubCommand) -> bool {
    cmd is Post || cmd is Delete || cmd is Rename
}

/// The shared cache policy: the explicit resync verb always refreshes; a
/// mutating verb refreshes exactly when its operation succeeded and cache
/// auto-update is on; no other verb refreshes. The flag governs only the
/// incremental refresh-after-mutation, never the explicit resync.
pub open spec fn invocation_refreshes(cmd: SubCommand, c: ConfigV, op_ok: bool) -> bool {
    cmd is Update || (is_mutating(cmd) && op_ok && c.auto_update_cache)
}

/// For create, delete and rename alike: with cache auto-update on, a
/// successful operation refreshes; with it off, or on failure, nothing
/// refreshes.
pub proof fn lemma_mutation_triggers_refresh(cmd: SubCommand, c: ConfigV, op_ok: bool)
    requires
        is_mutating(cmd),
    ensures
        invocation_refreshes(cmd, c, op_ok) == (op_ok && c.auto_update_cache),
{
}

/// The explicit resync verb refreshes whatever the auto-update flag and the
/// operation outcome are.
pub proof fn lemma_update_always_refreshes(c: ConfigV, op_ok: bool)
    ensures
        invocation_refreshes(SubCommand::Update, c, op_ok),
        dispatch_spec(SubCommand::Update) == DispatchAction::UpdateCache,
{
}

/// The collaborator operation one verb demands of the session.
#[derive(Debug, PartialEq, Eq)]
pub enum DispatchAction {
    /// Perform a full download into the local cache (the resync verb; it
    /// refreshes unconditionally).
    UpdateCache,
    /// Run the listing operation.
    List,
    /// Run the search operation.
    Search,
    /// Create the bookmark.
    Post,
    /// Delete the bookmark or tag.
    Delete,
    /// Validate and run the tag rename.
    Rename,
    /// Delegate to the self-update checker.
    SelfUpdate,
}

/// Which collaborator operation each verb demands. The configuration verb
/// never reaches the runner: the session branches to the configuration
/// store before one is built.
pub open spec fn dispatch_spec(cmd: SubCommand) -> DispatchAction
    recommends
        !(cmd is Config),
{
    match cmd {
        SubCommand::Update => DispatchAction::UpdateCache,
        SubCommand::List { .. } => DispatchAction::List,
        SubCommand::Search { .. } => DispatchAction::Search,
        SubCommand::Post { .. } => DispatchAction::Post,
        SubCommand::Delete { .. } => DispatchAction::Delete,
        SubCommand::Rename { .. } => DispatchAction::Rename,
        SubCommand::SelfUpdate { .. } => DispatchAction::SelfUpdate,
        SubCommand::Config { .. } => DispatchAction::List,
    }
}

impl Runner {
    /// Decides which collaborator operation the verb demands; one dispatch
    /// per invocation.
    pub fn dispatch(&self, cmd: &SubCommand) -> (r: DispatchAction)
        requires
            self.config is Some,
            !(cmd is Config),
        ensures
            r == dispatch_spec(*cmd),
    {
        match cmd {
            SubCommand::Update => DispatchAction::UpdateCache,
            SubCommand::List { .. } => DispatchAction::List,
            SubCommand::Search { .. } => DispatchAction::Search,
            SubCommand::Post { .. } => DispatchAction::Post,
            SubCommand::Delete { .. } => DispatchAction::Delete,
            SubCommand::Rename { .. } => DispatchAction::Rename,
            SubCommand::SelfUpdate { .. } => DispatchAction::SelfUpdate,
            SubCommand::Config { .. } => unreached(),
        }
    }
}

/// How a follow-up hands its outcome to the launcher.
#[derive(Debug)]
pub enum Emission {
    /// Through the structured output sink.
    Structured(CommandResult),
    /// Plain text written directly to standard output: the channel the
    /// rename verb reports through. It bypasses the structured sink every
    /// other verb uses — a known inconsistency of the tool's behavior,
    /// kept rather than silently unified.
    RawText(String),
}

/// What remains of an invocation once the verb's store operation has
/// returned: refresh the cache first (or not), then emit exactly once.
#[derive(Debug)]
pub struct Followup {
    /// Refresh the local cache, before anything is emitted.
    pub refresh_first: bool,
    /// The single emission that ends the invocation.
    pub emission: Emission,
    /// Whether the invocation counts as succeeded.
    pub success: bool,
}

/// One step the caller performs while finishing an invocation.
pub enum Step {
    RefreshCache,
    Emit(Emission),
}

/// The steps of a follow-up, in order: the conditional refresh, then the
/// one emission.
pub open spec fn steps_of(f: Followup) -> Seq<Step> {
    if f.refresh_first {
        seq![Step::RefreshCache, Step::Emit(f.emission)]
    } else {
        seq![Step::Emit(f.emission)]
    }
}

/// In every follow-up the cache refresh happens at most once, only as the
/// first step, and always before the single emission that ends the
/// invocation.
pub proof fn lemma_refresh_once_before_emit(f: Followup)
    ensures
        steps_of(f).len() == if f.refresh_first {
            2int
        } else {
            1int
        },
        f.refresh_first ==> steps_of(f)[0] is RefreshCache,
        steps_of(f).last() is Emit,
        forall|i: int|
            0 <= i < steps_of(f).len() && steps_of(f)[i] is RefreshCache ==> f.refresh_first && i
                == 0,
{
}

/// What the validation of the rename verb decided.
#[derive(Debug)]
pub enum RenameAction {
    /// The arguments are rejected; the message is reported through the
    /// error path and no remote call is made.
    Invalid(String),
    /// Call the store's tag rename with these two tags.
    CallApi { old_tag: String, new_tag: String },
}

/// The rename verb's arguments are exactly two non-empty tag strings.
pub open spec fn rename_args_valid(tags: Seq<Seq<char>>) -> bool {
    tags.len() == 2 && (forall|i: int| 0 <= i < tags.len() ==> (#[trigger] tags[i]).len() > 0)
}

/// The tag sequences of a vector of tag strings.
pub open spec fn tag_views(tags: Seq<String>) -> Seq<Seq<char>> {
    tags.map_values(|t: String| t@)
}

impl Runner {
    /// Validates the rename verb: fewer or more than two tags, or any empty
    /// tag, is a validation failure that makes no remote call; exactly two
    /// non-empty tags demand the store's tag rename.
    pub fn rename(&mut self, cmd: &SubCommand) -> (r: RenameAction)
        requires
            old(self).config is Some,
            cmd is Rename,
        ensures
            *final(self) == *old(self),
            cmd matches SubCommand::Rename { tags } ==> match r {
                RenameAction::Invalid(msg) => !rename_args_valid(tag_views(tags@)) && msg@
                    == "Enter 2 tags please!"@,
                RenameAction::CallApi { old_tag, new_tag } => rename_args_valid(tag_views(tags@))
                    && old_tag@ == tags@[0]@ && new_tag@ == tags@[1]@,
            },
    {
        match cmd {
            SubCommand::Rename { tags } => {
                if tags.len() != 2 || tags[0].as_str().is_empty() || tags[1].as_str().is_empty() {
                    proof {
                        let tv = tag_views(tags@);
                        if tags@.len() == 2 {
                            assert(tv[0] == tags@[0]@);
                            assert(tv[1] == tags@[1]@);
                        }
                    }
                    RenameAction::Invalid("Enter 2 tags please!".to_owned())
                } else {
                    proof {
                        let tv = tag_views(tags@);
                        assert forall|i: int| 0 <= i < tv.len() implies (#[trigger] tv[i]).len()
                            > 0 by {
                            if i == 0 {
                                assert(tv[0] == tags@[0]@);
                            } else {
                                assert(tv[1] == tags@[1]@);
                            }
                        }
                    }
                    RenameAction::CallApi {
                        old_tag: tags[0].clone(),
                        new_tag: tags[1].clone(),
                    }
                }
            },
            _ => unreached(),
        }
    }

    /// Finishes the rename verb once the store's tag rename has returned:
    /// refresh first exactly under the shared cache policy, then write the
    /// fixed success line — or the store's error line — to the raw standard
    /// output channel.
    pub fn rename_followup(&self, cmd: &SubCommand, api_result: &Result<(), String>) -> (r:
        Followup)
        requires
            self.config is Some,
            cmd is Rename,
        ensures
            r.refresh_first == invocation_refreshes(*cmd, self.current_config(), api_result is Ok),
            r.success == (api_result is Ok),
            api_result is Ok ==> (r.emission matches Emission::RawText(t) && t@
                == "Successfully renamed tag."@),
            api_result matches Err(m) ==> (r.emission matches Emission::RawText(t) && t@
                == "Error: "@ + m@),
    {
        match api_result {
            Ok(_) => Followup {
                refresh_first: self.config.as_ref().unwrap().auto_update_cache,
                emission: Emission::RawText("Successfully renamed tag.".to_owned()),
                success: true,
            },
            Err(m) => Followup {
                refresh_first: false,
                emission: Emission::RawText("Error: ".to_owned().concat(m.as_str())),
                success: false,
            },
        }
    }

    /// Finishes the create verb: refresh first exactly under the shared
    /// cache policy; a failure is mapped to the posting failure kind.
    pub fn post_followup(&self, cmd: &SubCommand, api_result: Result<(), String>) -> (r: Followup)
        requires
            self.config is Some,
            cmd is Post,
        ensures
            r.refresh_first == invocation_refreshes(*cmd, self.current_config(), api_result is Ok),
            r.success == (api_result is Ok),
            api_result is Ok ==> (r.emission matches Emission::Structured(
                CommandResult::Items(items),
            ) && items@.len() == 1 && items@[0]@ == message_item_v(
                "Successfully posted bookmark."@,
            )),
            api_result matches Err(m) ==> (r.emission matches Emission::Structured(
                CommandResult::Error(e),
            ) && e == AlfredError::Post2PinboardFailed(m)),
    {
        match api_result {
            Ok(_) => {
                let mut items: Vec<Item> = Vec::new();
                items.push(message_item("Successfully posted bookmark."));
                Followup {
                    refresh_first: self.config.as_ref().unwrap().auto_update_cache,
                    emission: Emission::Structured(CommandResult::Items(items)),
                    success: true,
                }
            },
            Err(m) => Followup {
                refresh_first: false,
                emission: Emission::Structured(
                    CommandResult::Error(map_store_failure(StoreFailure::Create(m))),
                ),
                success: false,
            },
        }
    }

    /// Finishes the delete verb: refresh first exactly under the shared
    /// cache policy; a failure is mapped to the deletion failure kind.
    pub fn delete_followup(&self, cmd: &SubCommand, api_result: Result<(), String>) -> (r:
        Followup)
        requires
            self.config is Some,
            cmd is Delete,
        ensures
            r.refresh_first == invocation_refreshes(*cmd, self.current_config(), api_result is Ok),
            r.success == (api_result is Ok),
            api_result is Ok ==> (r.emission matches Emission::Structured(
                CommandResult::Items(items),
            ) && items@.len() == 1 && items@[0]@ == message_item_v("Successfully deleted."@)),
            api_result matches Err(m) ==> (r.emission matches Emission::Structured(
                CommandResult::Error(e),
            ) && e == AlfredError::DeleteFailed(m)),
    {
        match api_result {
            Ok(_) => {
                let mut items: Vec<Item> = Vec::new();
                items.push(message_item("Successfully deleted."));
                Followup {
                    refresh_first: self.config.as_ref().unwrap().auto_update_cache,
                    emission: Emission::Structured(CommandResult::Items(items)),
                    success: true,
                }
            },
            Err(m) => Followup {
                refresh_first: false,
                emission: Emission::Structured(
                    CommandResult::Error(map_store_failure(StoreFailure::Delete(m))),
                ),
                success: false,
            },
        }
    }

    /// Finishes the explicit resync verb once the full download has
    /// returned. The refresh was the operation itself, so no further
    /// refresh follows; a failure is mapped to the cache failure kind.
    pub fn update_followup(&self, api_result: Result<(), String>) -> (r: Followup)
        requires
            self.config is Some,
        ensures
            !r.refresh_first,
            r.success == (api_result is Ok),
            api_result is Ok ==> (r.emission matches Emission::Structured(
                CommandResult::Items(items),
            ) && items@.len() == 1 && items@[0]@ == message_item_v(
                "Successfully updated local cache."@,
            )),
            api_result matches Err(m) ==> (r.emission matches Emission::Structured(
                CommandResult::Error(e),
            ) && e == AlfredError::CacheUpdateFailed(m)),
    {
        match api_result {
            Ok(_) => {
                let mut items: Vec<Item> = Vec::new();
                items.push(message_item("Successfully updated local cache."));
                Followup {
                    refresh_first: false,
                    emission: Emission::Structured(CommandResult::Items(items)),
                    success: true,
                }
            },
            Err(m) => Followup {
                refresh_first: false,
                emission: Emission::Structured(
                    CommandResult::Error(map_store_failure(StoreFailure::Refresh(m))),
                ),
                success: false,
            },
        }
    }
}

/// What the self-update verb asks of the update checker: whether the
/// rate-limit interval is overridden for an immediate probe, and whether
/// the newer release is also downloaded and staged. The flags are
/// independent; with neither, the probe only consults the cached
/// last-known state.
#[derive(Debug, PartialEq, Eq, Structural)]
pub struct SelfUpdatePlan {
    pub force_check: bool,
    pub download: bool,
}

impl Runner {
    /// Plans the self-update verb from its two independent flags.
    pub fn upgrade(&self, cmd: &SubCommand) -> (r: SelfUpdatePlan)
        requires
            self.config is Some,
            cmd is SelfUpdate,
        ensures
            *cmd matches SubCommand::SelfUpdate { check, download } ==> r == (SelfUpdatePlan {
                force_check: check,
                download,
            }),
    {
        match cmd {
            SubCommand::SelfUpdate { check, download } => SelfUpdatePlan {
                force_check: *check,
                download: *download,
            },
            _ => unreached(),
        }
    }
}

/// The four store toggles drawn from the configuration when the session's
/// bookmark store is built. New bookmarks are private exactly when they are
/// not shared by default.
#[derive(Debug, PartialEq, Eq, Structural)]
pub struct StoreSettings {
    pub fuzzy_search: bool,
    pub tags_only_search: bool,
    pub private_by_default: bool,
    pub toread_by_default: bool,
}

/// The store toggles a configuration demands.
pub open spec fn settings_of(c: ConfigV) -> StoreSettings {
    StoreSettings {
        fuzzy_search: c.fuzzy_search,
        tags_only_search: c.tags_only_search,
        private_by_default: !c.shared_by_default,
        toread_by_default: c.toread_by_default,
    }
}

/// Draws the four store toggles from a configuration.
pub fn store_settings(c: &Config) -> (r: StoreSettings)
    ensures
        r == settings_of(c@),
{
    StoreSettings {
        fuzzy_search: c.fuzzy_search,
        tags_only_search: c.tags_only_search,
        private_by_default: !c.shared_by_default,
        toread_by_default: c.toread_by_default,
    }
}

/// The generic line shown when environment validation fails.
pub open spec fn env_failure_message() -> Seq<char> {
    "Your workflow is not set up properly. Check alfred_workflow_* env var."@
}

/// The update-checker interval override the verb demands: zero — an
/// immediate network probe — exactly when the user explicitly requested a
/// check; otherwise none, leaving the checker's own rate limit in force.
pub open spec fn interval_override_spec(cmd: SubCommand) -> Option<u64> {
    if cmd matches SubCommand::SelfUpdate { check: true, .. } {
        Some(0u64)
    } else {
        None
    }
}

/// How an invocation begins, decided before any collaborator is touched.
#[derive(Debug)]
pub enum InvocationPlan {
    /// Environment validation failed: report the generic line and exit
    /// without touching configuration or network.
    EnvFailure(String),
    /// The configuration verb: go directly to the configuration store; no
    /// bookmark store is built.
    RunConfig,
    /// The configuration could not be loaded: report the failure kind and
    /// exit without touching the network.
    LoadFailure(AlfredError),
    /// Build the session and dispatch the verb.
    Proceed {
        /// The loaded configuration the session holds.
        config: Config,
        /// The store toggles drawn from it.
        settings: StoreSettings,
        /// The update-checker interval override, set exactly when the user
        /// explicitly requested an immediate check.
        update_interval_override: Option<u64>,
    },
}

/// Plans one invocation in the required order: environment validation first, then
/// the branch to the configuration verb, then the configuration load, and
/// only then a session.
pub fn plan_invocation(env: &EnvSignals, store: &ConfigStore, cmd: &SubCommand) -> (r:
    InvocationPlan)
    ensures
        !all_signals_present(*env) ==> (r matches InvocationPlan::EnvFailure(m) && m@
            == env_failure_message()),
        all_signals_present(*env) && cmd is Config ==> r is RunConfig,
        all_signals_present(*env) && !(cmd is Config) ==> match store.stored {
            StoredConfig::Missing => r matches InvocationPlan::LoadFailure(e) && e
                is MissingConfigFile,
            StoredConfig::Corrupt => r matches InvocationPlan::LoadFailure(e) && e
                is ConfigFileErr,
            StoredConfig::Present(c) => r matches InvocationPlan::Proceed {
                config,
                settings,
                update_interval_override,
            } && config@ == c@ && settings == settings_of(c@) && update_interval_override
                == interval_override_spec(*cmd),
        },
{
    if validate(env).is_err() {
        return InvocationPlan::EnvFailure(
            "Your workflow is not set up properly. Check alfred_workflow_* env var.".to_owned(),
        );
    }
    if let SubCommand::Config { .. } = cmd {
        return InvocationPlan::RunConfig;
    }
    match store.load() {
        Err(e) => InvocationPlan::LoadFailure(e),
        Ok(config) => {
            let settings = store_settings(&config);
            let update_interval_override = match cmd {
                SubCommand::SelfUpdate { check, .. } => if *check {
                    Some(0u64)
                } else {
                    None
                },
                _ => None,
            };
            InvocationPlan::Proceed { config, settings, update_interval_override }
        },
    }
}

} // verus!
