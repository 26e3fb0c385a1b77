use kubedash::resources::{DeploymentInfo, FetchError, JobInfo, JobStatus, MutateError};
use kubedash::session::{ConfigData, ContextInfo};
use kubedash::sync::{Command, Intent, Kind, MutateRequest, Outcome, SyncCore, ViewKind};
use kubedash::views::{CronJobAction, DeploymentAction, JobAction, PodAction};

fn deployment(name: &str) -> DeploymentInfo {
    DeploymentInfo {
        name: name.to_string(),
        namespace: "ns".to_string(),
        replicas: 1,
        available: 1,
        ready: 1,
        updated: 1,
        age: "1m".to_string(),
        images: vec![],
        labels: vec![],
    }
}

fn fetch_err(msg: &str) -> FetchError {
    FetchError { message: msg.to_string() }
}

fn config_with(names: &[&str]) -> ConfigData {
    ConfigData {
        current_context: names.first().map(|n| n.to_string()),
        contexts: names
            .iter()
            .map(|n| ContextInfo {
                name: n.to_string(),
                cluster: "c".to_string(),
                user: String::new(),
                namespace: None,
            })
            .collect(),
    }
}

fn initialized_core() -> SyncCore {
    let mut core = SyncCore::new();
    let cmds = core.apply_outcome(
        Outcome::Initialized { config: Ok(config_with(&["prod", "dev"])), conn: Ok(1) },
        0,
    );
    assert!(core.initialized);
    assert_eq!(cmds, vec![Command::Fetch { kind: Kind::Deployments, namespace: None }]);
    // settle the initial fetch so the core starts the test idle
    core.apply_outcome(Outcome::DeploymentsLoaded(Ok(vec![])), 0);
    core
}

#[test]
fn new_core_is_empty_and_idle() {
    let core = SyncCore::new();
    assert!(!core.initialized);
    assert!(core.init_error.is_none());
    assert_eq!(core.current_view, ViewKind::Deployments);
    assert!(core.selected_namespace.is_none());
    assert!(core.deployments.items.is_empty());
    assert!(!core.deployments.loading);
    assert!(core.deployments.last_error.is_none());
    assert!(core.notifications.is_empty());
}

#[test]
fn failed_initialize_records_error_and_spawns_nothing() {
    let mut core = SyncCore::new();
    let cmds = core.apply_outcome(
        Outcome::Initialized { config: Err("no kubeconfig".to_string()), conn: Err("n/a".to_string()) },
        0,
    );
    assert!(cmds.is_empty());
    assert!(!core.initialized);
    assert_eq!(
        core.init_error.as_deref(),
        Some("Failed to read kubeconfig: no kubeconfig")
    );
}

#[test]
fn retry_clears_error_and_reinitializes() {
    let mut core = SyncCore::new();
    core.apply_outcome(
        Outcome::Initialized { config: Err("boom".to_string()), conn: Err("n/a".to_string()) },
        0,
    );
    let cmds = core.handle_intent(Intent::RetryInitialize);
    assert!(core.init_error.is_none());
    assert_eq!(cmds, vec![Command::Initialize]);
}

#[test]
fn fetch_request_enters_loading_and_clears_error() {
    let mut core = initialized_core();
    // leave an error behind first
    core.apply_outcome(Outcome::DeploymentsLoaded(Err(fetch_err("boom"))), 0);
    assert_eq!(core.deployments.last_error.as_deref(), Some("boom"));
    assert!(!core.deployments.loading);
    let cmds = core.handle_intent(Intent::Refresh);
    assert!(core.deployments.loading);
    assert!(core.deployments.last_error.is_none());
    assert_eq!(cmds, vec![Command::Fetch { kind: Kind::Deployments, namespace: None }]);
}

#[test]
fn successful_fetch_replaces_items_wholesale() {
    let mut core = initialized_core();
    core.apply_outcome(Outcome::DeploymentsLoaded(Ok(vec![deployment("old")])), 0);
    core.handle_intent(Intent::Refresh);
    let cmds = core.apply_outcome(
        Outcome::DeploymentsLoaded(Ok(vec![deployment("a"), deployment("b")])),
        0,
    );
    assert!(cmds.is_empty());
    assert!(!core.deployments.loading);
    assert!(core.deployments.last_error.is_none());
    let names: Vec<&str> = core.deployments.items.iter().map(|d| d.name.as_str()).collect();
    assert_eq!(names, vec!["a", "b"]);
}

#[test]
fn failed_fetch_keeps_stale_items() {
    let mut core = initialized_core();
    core.apply_outcome(Outcome::DeploymentsLoaded(Ok(vec![deployment("keep")])), 0);
    core.handle_intent(Intent::Refresh);
    core.apply_outcome(Outcome::DeploymentsLoaded(Err(fetch_err("network down"))), 0);
    assert!(!core.deployments.loading);
    assert_eq!(core.deployments.last_error.as_deref(), Some("network down"));
    assert_eq!(core.deployments.items.len(), 1);
    assert_eq!(core.deployments.items[0].name, "keep");
}

#[test]
fn select_view_fetches_both_kinds_of_paired_views() {
    let mut core = initialized_core();
    let cmds = core.handle_intent(Intent::SelectView(ViewKind::Services));
    assert_eq!(core.current_view, ViewKind::Services);
    assert!(core.services.loading);
    assert!(core.ingresses.loading);
    assert!(!core.pods.loading);
    assert_eq!(
        cmds,
        vec![
            Command::Fetch { kind: Kind::Services, namespace: None },
            Command::Fetch { kind: Kind::Ingresses, namespace: None },
        ]
    );
}

#[test]
fn select_namespace_refetches_current_view_only() {
    let mut core = initialized_core();
    core.handle_intent(Intent::SelectView(ViewKind::Jobs));
    core.apply_outcome(Outcome::JobsLoaded(Ok(vec![])), 0);
    let cmds = core.handle_intent(Intent::SelectNamespace(Some("batch".to_string())));
    assert_eq!(core.selected_namespace.as_deref(), Some("batch"));
    assert!(core.jobs.loading);
    assert!(!core.deployments.loading);
    assert_eq!(
        cmds,
        vec![Command::Fetch { kind: Kind::Jobs, namespace: Some("batch".to_string()) }]
    );
}

#[test]
fn select_context_only_spawns_a_switch() {
    let mut core = initialized_core();
    let cmds = core.handle_intent(Intent::SelectContext("dev".to_string()));
    assert_eq!(cmds, vec![Command::SwitchContext("dev".to_string())]);
    // nothing changes until the switch outcome arrives
    assert_eq!(core.session.get_current_context().as_deref(), Some("prod"));
}

#[test]
fn context_switch_success_notifies_and_refreshes() {
    let mut core = initialized_core();
    let cmds = core.apply_outcome(
        Outcome::ContextSwitched { name: "dev".to_string(), conn: Ok(2) },
        100,
    );
    assert_eq!(core.session.get_current_context().as_deref(), Some("dev"));
    assert_eq!(core.session.current_connection(), Some(2));
    assert_eq!(core.notifications.len(), 1);
    assert_eq!(core.notifications[0].text, "Context switched successfully");
    assert!(!core.notifications[0].is_error);
    assert_eq!(
        cmds,
        vec![
            Command::FetchNamespaces,
            Command::Fetch { kind: Kind::Deployments, namespace: None },
        ]
    );
}

#[test]
fn context_switch_failure_leaves_state_and_notifies() {
    let mut core = initialized_core();
    let cmds = core.apply_outcome(
        Outcome::ContextSwitched { name: "nowhere".to_string(), conn: Ok(9) },
        100,
    );
    assert!(cmds.is_empty());
    assert_eq!(core.session.current_connection(), Some(1));
    assert_eq!(core.session.get_current_context().as_deref(), Some("prod"));
    assert!(!core.deployments.loading);
    assert_eq!(core.notifications.len(), 1);
    assert!(core.notifications[0].is_error);
    assert_eq!(
        core.notifications[0].text,
        "Failed to switch context: Unknown context: nowhere"
    );
}

#[test]
fn namespaces_loaded_replaces_the_list() {
    let mut core = initialized_core();
    core.apply_outcome(
        Outcome::NamespacesLoaded(vec!["default".to_string(), "batch".to_string()]),
        0,
    );
    assert_eq!(core.namespaces, vec!["default".to_string(), "batch".to_string()]);
}

#[test]
fn delete_success_refreshes_current_view_exactly_once() {
    let mut core = initialized_core();
    core.handle_intent(Intent::SelectView(ViewKind::Jobs));
    core.apply_outcome(Outcome::JobsLoaded(Ok(vec![])), 0);
    let cmds = core.apply_outcome(
        Outcome::ActionCompleted(Ok("Deleted job cleanup".to_string())),
        50,
    );
    // exactly one refresh, of the current view's kind, and none of the others
    assert_eq!(cmds, vec![Command::Fetch { kind: Kind::Jobs, namespace: None }]);
    assert!(core.jobs.loading);
    assert!(!core.deployments.loading);
    assert!(!core.pods.loading);
    assert!(!core.services.loading);
    assert!(!core.ingresses.loading);
    assert!(!core.configmaps.loading);
    assert!(!core.secrets.loading);
    assert!(!core.cronjobs.loading);
    assert_eq!(core.notifications.len(), 1);
    assert_eq!(core.notifications[0].text, "Deleted job cleanup");
}

#[test]
fn failed_action_notifies_and_spawns_nothing() {
    let mut core = initialized_core();
    let cmds = core.apply_outcome(
        Outcome::ActionCompleted(Err(MutateError { message: "forbidden".to_string() })),
        50,
    );
    assert!(cmds.is_empty());
    assert!(!core.deployments.loading);
    assert_eq!(core.notifications.len(), 1);
    assert!(core.notifications[0].is_error);
    assert_eq!(core.notifications[0].text, "Error: forbidden");
}

#[test]
fn notifications_expire_after_retention_window() {
    let mut core = initialized_core();
    core.apply_outcome(Outcome::ActionCompleted(Ok("first".to_string())), 1000);
    core.apply_outcome(Outcome::ActionCompleted(Ok("second".to_string())), 3000);
    assert_eq!(core.notifications.len(), 2);
    // well within the window: both stay
    core.expire_notifications(4000);
    assert_eq!(core.notifications.len(), 2);
    // the first is now clearly older than five seconds, the second is not
    core.expire_notifications(6500);
    assert_eq!(core.notifications.len(), 1);
    assert_eq!(core.notifications[0].text, "second");
    // much later, nothing is left
    core.expire_notifications(20000);
    assert!(core.notifications.is_empty());
}

#[test]
fn overlapping_fetches_last_delivery_wins() {
    let mut core = initialized_core();
    core.handle_intent(Intent::Refresh);
    // a namespace change while the first fetch is still loading
    let cmds = core.handle_intent(Intent::SelectNamespace(Some("prod".to_string())));
    assert!(core.deployments.loading);
    assert_eq!(cmds.len(), 1);
    // two outcomes arrive; whichever is delivered last determines the items
    core.apply_outcome(Outcome::DeploymentsLoaded(Ok(vec![deployment("from-all")])), 0);
    core.apply_outcome(Outcome::DeploymentsLoaded(Ok(vec![deployment("from-prod")])), 0);
    assert!(!core.deployments.loading);
    assert_eq!(core.deployments.items.len(), 1);
    assert_eq!(core.deployments.items[0].name, "from-prod");
}

#[test]
fn pod_logs_side_channel() {
    let mut core = initialized_core();
    let cmds = core.handle_intent(Intent::Pod(PodAction::GetLogs(
        "ns".to_string(),
        "api-1".to_string(),
        Some("app".to_string()),
        100,
    )));
    assert!(core.pods_view.logs_loading);
    // the log side-channel has its own flag, no list snapshot loads
    assert!(!core.pods.loading);
    assert_eq!(
        cmds,
        vec![Command::FetchLogs {
            namespace: "ns".to_string(),
            pod: "api-1".to_string(),
            container: Some("app".to_string()),
            tail_lines: 100,
        }]
    );
    core.apply_outcome(Outcome::PodLogsLoaded(Ok("line one\n".to_string())), 0);
    assert!(!core.pods_view.logs_loading);
    assert_eq!(core.pods_view.logs_content, "line one\n");
    core.pods_view.logs_loading = true;
    core.apply_outcome(Outcome::PodLogsLoaded(Err(fetch_err("gone"))), 0);
    assert_eq!(core.pods_view.logs_content, "Error: gone");
}

#[test]
fn history_outcomes_update_cronjobs_view() {
    let mut core = initialized_core();
    let cmds = core.handle_intent(Intent::CronJob(CronJobAction::GetHistory(
        "batch".to_string(),
        "nightly".to_string(),
    )));
    assert_eq!(
        cmds,
        vec![Command::FetchHistory { namespace: "batch".to_string(), name: "nightly".to_string() }]
    );
    let job = JobInfo {
        name: "nightly-1".to_string(),
        namespace: "batch".to_string(),
        completions: "1/1".to_string(),
        duration: "30s".to_string(),
        age: "1h".to_string(),
        status: JobStatus::Succeeded,
        owner: Some("nightly".to_string()),
    };
    core.cronjobs_view.history_loading = true;
    core.apply_outcome(Outcome::CronJobHistoryLoaded(Ok(vec![job])), 0);
    assert!(!core.cronjobs_view.history_loading);
    assert_eq!(core.cronjobs_view.history_jobs.len(), 1);
    core.cronjobs_view.history_loading = true;
    core.apply_outcome(Outcome::CronJobHistoryLoaded(Err(fetch_err("denied"))), 10);
    assert!(!core.cronjobs_view.history_loading);
    assert!(core.cronjobs_view.history_jobs.is_empty());
    assert_eq!(core.notifications.last().unwrap().text, "Failed to load history: denied");
}

#[test]
fn intents_map_to_mutate_requests() {
    let mut core = initialized_core();
    let cmds = core.handle_intent(Intent::Deployment(DeploymentAction::Scale(
        "ns".to_string(),
        "web".to_string(),
        5,
    )));
    assert_eq!(
        cmds,
        vec![Command::Mutate(MutateRequest::ScaleDeployment {
            namespace: "ns".to_string(),
            name: "web".to_string(),
            replicas: 5,
        })]
    );
    let cmds = core.handle_intent(Intent::Deployment(DeploymentAction::Restart(
        "ns".to_string(),
        "web".to_string(),
    )));
    assert_eq!(
        cmds,
        vec![Command::Mutate(MutateRequest::RestartDeployment {
            namespace: "ns".to_string(),
            name: "web".to_string(),
        })]
    );
    let cmds = core.handle_intent(Intent::Job(JobAction::Delete(
        "batch".to_string(),
        "cleanup".to_string(),
    )));
    assert_eq!(
        cmds,
        vec![Command::Mutate(MutateRequest::DeleteJob {
            namespace: "batch".to_string(),
            name: "cleanup".to_string(),
        })]
    );
    let cmds = core.handle_intent(Intent::CronJob(CronJobAction::Trigger(
        "batch".to_string(),
        "nightly".to_string(),
    )));
    assert_eq!(
        cmds,
        vec![Command::Mutate(MutateRequest::TriggerCronJob {
            namespace: "batch".to_string(),
            name: "nightly".to_string(),
        })]
    );
    let cmds = core.handle_intent(Intent::CronJob(CronJobAction::Suspend(
        "batch".to_string(),
        "nightly".to_string(),
        true,
    )));
    assert_eq!(
        cmds,
        vec![Command::Mutate(MutateRequest::SuspendCronJob {
            namespace: "batch".to_string(),
            name: "nightly".to_string(),
            suspend: true,
        })]
    );
    // none of these flipped a loading flag
    assert!(!core.deployments.loading);
    assert!(!core.jobs.loading);
    assert!(!core.cronjobs.loading);
}

#[test]
fn clock_readings_are_plausible() {
    let secs = kubedash::clock::now_unix_seconds();
    assert!(secs > 1_500_000_000);
    let ms = kubedash::clock::now_unix_millis();
    assert!(ms > 1_500_000_000_000);
}
