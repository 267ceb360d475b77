use alfred_pinboard_rs::cli::SubCommand;
use alfred_pinboard_rs::config::Config;
use alfred_pinboard_rs::config::ConfigStore;
use alfred_pinboard_rs::config::StoredConfig;
use alfred_pinboard_rs::env_gate::EnvSignals;
use alfred_pinboard_rs::errors::AlfredError;
use alfred_pinboard_rs::output::CommandResult;
use alfred_pinboard_rs::runner::DispatchAction;
use alfred_pinboard_rs::runner::Emission;
use alfred_pinboard_rs::runner::InvocationPlan;
use alfred_pinboard_rs::runner::RenameAction;
use alfred_pinboard_rs::runner::Runner;
use alfred_pinboard_rs::runner::SelfUpdatePlan;
use alfred_pinboard_rs::runner::plan_invocation;
use alfred_pinboard_rs::runner::store_settings;

fn ready_env() -> EnvSignals {
    EnvSignals {
        workflow_version: true,
        workflow_data: true,
        workflow_cache: true,
        workflow_uid: true,
        workflow_name: true,
        alfred_version: true,
    }
}

fn configured(auto_update_cache: bool) -> Runner {
    let mut c = Config::default();
    c.auth_token = "user:SECRET-REDACTED".to_string();
    c.auto_update_cache = auto_update_cache;
    Runner { config: Some(c) }
}

fn rename_cmd(tags: &[&str]) -> SubCommand {
    SubCommand::Rename { tags: tags.iter().map(|t| t.to_string()).collect() }
}

#[test]
fn non_config_verb_without_stored_config_reports_missing_file() {
    // Scenario: no configuration has ever been saved.
    let store = ConfigStore { stored: StoredConfig::Missing };
    for cmd in [SubCommand::Update, rename_cmd(&["a", "b"]), SubCommand::SelfUpdate {
        check: false,
        download: false,
    }] {
        let plan = plan_invocation(&ready_env(), &store, &cmd);
        assert!(matches!(plan, InvocationPlan::LoadFailure(AlfredError::MissingConfigFile)));
    }
}

#[test]
fn corrupt_stored_config_reports_config_file_err() {
    let store = ConfigStore { stored: StoredConfig::Corrupt };
    let plan = plan_invocation(&ready_env(), &store, &SubCommand::Update);
    assert!(matches!(plan, InvocationPlan::LoadFailure(AlfredError::ConfigFileErr)));
}

#[test]
fn failed_environment_gate_stops_before_everything() {
    let env = EnvSignals { workflow_cache: false, ..ready_env() };
    let store = ConfigStore { stored: StoredConfig::Missing };
    let plan = plan_invocation(&env, &store, &SubCommand::Update);
    match plan {
        InvocationPlan::EnvFailure(m) => assert_eq!(
            m,
            "Your workflow is not set up properly. Check alfred_workflow_* env var."
        ),
        _ => panic!("expected an environment failure"),
    }
}

#[test]
fn config_verb_goes_to_the_config_store_directly() {
    let store = ConfigStore { stored: StoredConfig::Missing };
    let cmd = SubCommand::Config {
        display: true,
        auth_token: None,
        number_pins: None,
        number_tags: None,
        shared: None,
        toread: None,
        fuzzy: None,
        tags_only: None,
        auto_update: None,
        suggest_tags: None,
        check_bookmarked_page: None,
        show_url_vs_tags: None,
    };
    let plan = plan_invocation(&ready_env(), &store, &cmd);
    assert!(matches!(plan, InvocationPlan::RunConfig));
}

#[test]
fn proceeding_session_draws_settings_and_interval_from_config_and_verb() {
    // Scenario: an explicit self-update check forces the probe interval to
    // zero; without the flag the checker's own rate limit stays in force.
    let mut c = Config::default();
    c.auth_token = "user:SECRET-REDACTED".to_string();
    c.shared_by_default = true;
    c.fuzzy_search = true;
    let store = ConfigStore { stored: StoredConfig::Present(c) };
    let check_only = SubCommand::SelfUpdate { check: true, download: false };
    match plan_invocation(&ready_env(), &store, &check_only) {
        InvocationPlan::Proceed { config, settings, update_interval_override } => {
            assert_eq!(update_interval_override, Some(0));
            assert!(settings.fuzzy_search);
            assert!(!settings.private_by_default);  // shared by default
            assert!(!settings.tags_only_search);
            assert_eq!(config.auth_token, "user:SECRET-REDACTED");
        },
        _ => panic!("expected a session"),
    }
    match plan_invocation(&ready_env(), &store, &SubCommand::Update) {
        InvocationPlan::Proceed { update_interval_override, .. } => {
            assert_eq!(update_interval_override, None);
        },
        _ => panic!("expected a session"),
    }
}

#[test]
fn self_update_check_only_does_not_download() {
    let runner = configured(true);
    let cmd = SubCommand::SelfUpdate { check: true, download: false };
    let plan = runner.upgrade(&cmd);
    assert_eq!(plan, SelfUpdatePlan { force_check: true, download: false });
}

#[test]
fn store_settings_invert_the_shared_flag() {
    let mut c = Config::default();
    c.toread_by_default = true;
    let s = store_settings(&c);
    assert!(s.private_by_default);  // not shared by default
    assert!(s.toread_by_default);
    assert!(!s.fuzzy_search);
}

#[test]
fn dispatch_demands_the_full_download_for_the_update_verb() {
    let runner = configured(false);
    assert_eq!(runner.dispatch(&SubCommand::Update), DispatchAction::UpdateCache);
}

#[test]
fn dispatch_names_each_verbs_operation() {
    let runner = configured(true);
    assert_eq!(runner.dispatch(&rename_cmd(&["a", "b"])), DispatchAction::Rename);
    assert_eq!(
        runner.dispatch(&SubCommand::Post {
            tags: vec!["t".to_string()],
            description: None,
            shared: None,
            toread: None
        }),
        DispatchAction::Post
    );
    assert_eq!(
        runner.dispatch(&SubCommand::Delete { url: None, tag: Some("t".to_string()) }),
        DispatchAction::Delete
    );
    assert_eq!(
        runner.dispatch(&SubCommand::SelfUpdate { check: false, download: true }),
        DispatchAction::SelfUpdate
    );
}

#[test]
fn rename_rejects_wrong_tag_counts_and_empty_tags() {
    let mut runner = configured(true);
    for bad in [
        rename_cmd(&[]),
        rename_cmd(&["only"]),
        rename_cmd(&["a", "b", "c"]),
        rename_cmd(&["", "b"]),
        rename_cmd(&["a", ""]),
    ] {
        match runner.rename(&bad) {
            RenameAction::Invalid(msg) => assert_eq!(msg, "Enter 2 tags please!"),
            RenameAction::CallApi { .. } => panic!("invalid arguments must not reach the store"),
        }
    }
}

#[test]
fn rename_with_two_tags_calls_the_store() {
    let mut runner = configured(true);
    match runner.rename(&rename_cmd(&["oldtag", "newtag"])) {
        RenameAction::CallApi { old_tag, new_tag } => {
            assert_eq!(old_tag, "oldtag");
            assert_eq!(new_tag, "newtag");
        },
        RenameAction::Invalid(_) => panic!("two non-empty tags are valid"),
    }
}

#[test]
fn rename_with_equal_tags_is_passed_to_the_store() {
    // Scenario: old == new; validity is the store's business, and the
    // refresh contract on success is the same as for any other rename.
    let mut runner = configured(true);
    match runner.rename(&rename_cmd(&["a", "a"])) {
        RenameAction::CallApi { old_tag, new_tag } => {
            assert_eq!(old_tag, "a");
            assert_eq!(new_tag, "a");
        },
        RenameAction::Invalid(_) => panic!("two non-empty tags are valid"),
    }
    let fu = runner.rename_followup(&rename_cmd(&["a", "a"]), &Ok(()));
    assert!(fu.refresh_first);
    assert!(fu.success);
}

#[test]
fn successful_rename_refreshes_once_with_auto_update_on() {
    let runner = configured(true);
    let fu = runner.rename_followup(&rename_cmd(&["a", "b"]), &Ok(()));
    assert!(fu.refresh_first);
    match fu.emission {
        Emission::RawText(t) => assert_eq!(t, "Successfully renamed tag."),
        Emission::Structured(_) => panic!("rename reports through the raw text channel"),
    }
}

#[test]
fn successful_rename_does_not_refresh_with_auto_update_off() {
    let runner = configured(false);
    let fu = runner.rename_followup(&rename_cmd(&["a", "b"]), &Ok(()));
    assert!(!fu.refresh_first);
    assert!(fu.success);
}

#[test]
fn failed_rename_reports_and_does_not_refresh() {
    let runner = configured(true);
    let fu = runner.rename_followup(&rename_cmd(&["a", "b"]), &Err("api said no".to_string()));
    assert!(!fu.refresh_first);
    assert!(!fu.success);
    match fu.emission {
        Emission::RawText(t) => assert_eq!(t, "Error: api said no"),
        Emission::Structured(_) => panic!("rename reports through the raw text channel"),
    }
}

#[test]
fn successful_post_refreshes_once_before_output() {
    // Scenario: cache auto-update is on and the create succeeds; the one
    // refresh comes before the one output write.
    let runner = configured(true);
    let fu = runner.post_followup(
        &SubCommand::Post { tags: vec![], description: None, shared: None, toread: None },
        Ok(()),
    );
    assert!(fu.refresh_first);
    assert!(fu.success);
    match fu.emission {
        Emission::Structured(CommandResult::Items(items)) => {
            assert_eq!(items.len(), 1);
            assert_eq!(items[0].title, "Successfully posted bookmark.");
        },
        _ => panic!("a successful post reports items"),
    }
}

#[test]
fn post_respects_auto_update_off_and_failure() {
    let post = SubCommand::Post { tags: vec![], description: None, shared: None, toread: None };
    let off = configured(false).post_followup(&post, Ok(()));
    assert!(!off.refresh_first);
    let failed = configured(true).post_followup(&post, Err("refused".to_string()));
    assert!(!failed.refresh_first);
    match failed.emission {
        Emission::Structured(CommandResult::Error(AlfredError::Post2PinboardFailed(m))) => {
            assert_eq!(m, "refused")
        },
        _ => panic!("a failed post maps to the posting failure kind"),
    }
}

#[test]
fn delete_follows_the_same_refresh_policy() {
    let del = SubCommand::Delete { url: Some("http://e".to_string()), tag: None };
    let on = configured(true).delete_followup(&del, Ok(()));
    assert!(on.refresh_first);
    let off = configured(false).delete_followup(&del, Ok(()));
    assert!(!off.refresh_first);
    let failed = configured(true).delete_followup(&del, Err("gone".to_string()));
    assert!(!failed.refresh_first);
    match failed.emission {
        Emission::Structured(CommandResult::Error(AlfredError::DeleteFailed(m))) => {
            assert_eq!(m, "gone")
        },
        _ => panic!("a failed delete maps to the deletion failure kind"),
    }
}

#[test]
fn explicit_resync_reports_cache_failures() {
    let ok = configured(false).update_followup(Ok(()));
    assert!(ok.success);
    assert!(!ok.refresh_first);  // the refresh was the operation itself
    let failed = configured(false).update_followup(Err("timeout".to_string()));
    match failed.emission {
        Emission::Structured(CommandResult::Error(AlfredError::CacheUpdateFailed(m))) => {
            assert_eq!(m, "timeout")
        },
        _ => panic!("a failed resync maps to the cache failure kind"),
    }
}
