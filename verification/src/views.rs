//! Per-kind view state: search filters, selections, open dialogs and the
//! intents a rendered table can emit. Rendering itself is presentation
//! work and lives outside; it reads and writes these values and calls the
//! verified filter and classification helpers here.

use vstd::prelude::*;
use vstd::string::*;
use crate::resources::{
    ConfigMapInfo, CronJobInfo, DeploymentInfo, IngressInfo, JobInfo, KeyValue, PodInfo,
    SecretInfo, ServiceInfo,
};
use crate::text::{lower_of, lowercase, spec_contains, str_contains, str_eq};

verus! {

/// The colour family a status word maps to.
#[derive(Clone, Copy, Debug, PartialEq, Eq, Structural)]
pub enum StatusTone {
    /// Healthy: running, active, ready, succeeded, available.
    Positive,
    /// In progress: pending, waiting, creating.
    Caution,
    /// Broken: failed, error, back-off states.
    Negative,
    /// Finished or unrecognised.
    Neutral,
}

/// The tone of a lower-cased status word.
pub open spec fn spec_status_tone(s: Seq<char>) -> StatusTone {
    if s == "running"@ || s == "active"@ || s == "ready"@ || s == "succeeded"@ || s
        == "available"@ {
        StatusTone::Positive
    } else if s == "pending"@ || s == "waiting"@ || s == "creating"@ {
        StatusTone::Caution
    } else if s == "failed"@ || s == "error"@ || s == "crashloopbackoff"@ || s
        == "imagepullbackoff"@ {
        StatusTone::Negative
    } else {
        StatusTone::Neutral
    }
}

/// Classifies a status word, case-insensitively, into its display tone.
pub fn status_tone(status: &str) -> (r: StatusTone)
    ensures
        r == spec_status_tone(lower_of(status@)),
{
    let low: String = lowercase(status);
    let s: &str = low.as_str();
    if str_eq(s, "running") || str_eq(s, "active") || str_eq(s, "ready") || str_eq(s, "succeeded")
        || str_eq(s, "available") {
        StatusTone::Positive
    } else if str_eq(s, "pending") || str_eq(s, "waiting") || str_eq(s, "creating") {
        StatusTone::Caution
    } else if str_eq(s, "failed") || str_eq(s, "error") || str_eq(s, "crashloopbackoff")
        || str_eq(s, "imagepullbackoff") {
        StatusTone::Negative
    } else {
        StatusTone::Neutral
    }
}

/// Whether a row with this name and namespace passes a search filter:
/// an empty filter passes everything, else the lower-cased filter must
/// occur in the lower-cased name or namespace.
pub open spec fn spec_name_matches(name: Seq<char>, namespace: Seq<char>, filter: Seq<char>) -> bool {
    filter.len() == 0 || spec_contains(lower_of(name), lower_of(filter)) || spec_contains(
        lower_of(namespace),
        lower_of(filter),
    )
}

/// Case-insensitive search over a row's name and namespace.
pub fn name_matches(name: &String, namespace: &String, filter: &String) -> (r: bool)
    ensures
        r == spec_name_matches(name@, namespace@, filter@),
{
    if filter.as_str().is_empty() {
        return true;
    }
    let low_filter: String = lowercase(filter.as_str());
    let low_name: String = lowercase(name.as_str());
    if str_contains(low_name.as_str(), low_filter.as_str()) {
        return true;
    }
    let low_ns: String = lowercase(namespace.as_str());
    str_contains(low_ns.as_str(), low_filter.as_str())
}

/// Whether a pod row passes a search filter: like [`spec_name_matches`],
/// with the status text searched as well.
pub open spec fn spec_pod_matches(p: PodInfo, filter: Seq<char>) -> bool {
    spec_name_matches(p.name@, p.namespace@, filter) || (filter.len() > 0 && spec_contains(
        lower_of(p.status@),
        lower_of(filter),
    ))
}

/// Case-insensitive search over a pod row's name, namespace and status.
pub fn pod_matches(p: &PodInfo, filter: &String) -> (r: bool)
    ensures
        r == spec_pod_matches(*p, filter@),
{
    if name_matches(&p.name, &p.namespace, filter) {
        return true;
    }
    let low_filter: String = lowercase(filter.as_str());
    let low_status: String = lowercase(p.status.as_str());
    str_contains(low_status.as_str(), low_filter.as_str())
}

// ---------------------------------------------------------------------
// Deployments view
// ---------------------------------------------------------------------

/// An intent emitted from the deployments table.
#[derive(Clone, Debug)]
pub enum DeploymentAction {
    Scale(String, String, i32),
    Restart(String, String),
    Delete(String, String),
}

/// State of the deployments view.
pub struct DeploymentsView {
    pub search_filter: String,
    pub selected_deployment: Option<DeploymentInfo>,
    pub scale_replicas: i32,
    pub show_scale_dialog: bool,
    pub show_delete_dialog: bool,
    pub pending_action: Option<DeploymentAction>,
}

impl Default for DeploymentsView {
    fn default() -> (r: Self)
        ensures
            r.search_filter@.len() == 0,
            r.selected_deployment is None,
            r.scale_replicas == 1,
            !r.show_scale_dialog,
            !r.show_delete_dialog,
            r.pending_action is None,
    {
        DeploymentsView {
            search_filter: String::new(),
            selected_deployment: None,
            scale_replicas: 1,
            show_scale_dialog: false,
            show_delete_dialog: false,
            pending_action: None,
        }
    }
}

// ---------------------------------------------------------------------
// Pods view
// ---------------------------------------------------------------------

/// An intent emitted from the pods table: deletion, or a log fetch for
/// `(namespace, pod, container, tail line count)`.
#[derive(Clone, Debug)]
pub enum PodAction {
    Delete(String, String),
    GetLogs(String, String, Option<String>, i64),
}

/// State of the pods view, including the log side-channel: its text and
/// its own loading flag, separate from the list snapshots.
pub struct PodsView {
    pub search_filter: String,
    pub selected_pod: Option<PodInfo>,
    pub show_delete_dialog: bool,
    pub show_logs: bool,
    pub logs_content: String,
    pub logs_loading: bool,
    pub selected_container: Option<String>,
    pub tail_lines: i64,
    pub pending_action: Option<PodAction>,
}

impl Default for PodsView {
    fn default() -> (r: Self)
        ensures
            r.search_filter@.len() == 0,
            r.selected_pod is None,
            !r.show_delete_dialog,
            !r.show_logs,
            r.logs_content@.len() == 0,
            !r.logs_loading,
            r.selected_container is None,
            r.tail_lines == 100,
            r.pending_action is None,
    {
        PodsView {
            search_filter: String::new(),
            selected_pod: None,
            show_delete_dialog: false,
            show_logs: false,
            logs_content: String::new(),
            logs_loading: false,
            selected_container: None,
            tail_lines: 100,
            pending_action: None,
        }
    }
}

impl PodsView {
    /// Delivers fetched log text: the side-channel stops loading and
    /// shows exactly this text; nothing else changes.
    pub fn set_logs(&mut self, logs: String)
        ensures
            final(self).logs_content == logs,
            !final(self).logs_loading,
            final(self).search_filter == old(self).search_filter,
            final(self).selected_pod == old(self).selected_pod,
            final(self).show_delete_dialog == old(self).show_delete_dialog,
            final(self).show_logs == old(self).show_logs,
            final(self).selected_container == old(self).selected_container,
            final(self).tail_lines == old(self).tail_lines,
            final(self).pending_action == old(self).pending_action,
    {
        self.logs_content = logs;
        self.logs_loading = false;
    }

    /// Marks the log side-channel as loading; nothing else changes.
    pub fn set_logs_loading(&mut self)
        ensures
            final(self).logs_loading,
            final(self).logs_content == old(self).logs_content,
            final(self).search_filter == old(self).search_filter,
            final(self).selected_pod == old(self).selected_pod,
            final(self).show_delete_dialog == old(self).show_delete_dialog,
            final(self).show_logs == old(self).show_logs,
            final(self).selected_container == old(self).selected_container,
            final(self).tail_lines == old(self).tail_lines,
            final(self).pending_action == old(self).pending_action,
    {
        self.logs_loading = true;
    }
}

// ---------------------------------------------------------------------
// Services view
// ---------------------------------------------------------------------

/// Which tab of the services view is active.
#[derive(Clone, Copy, Debug, PartialEq, Eq, Structural)]
pub enum ServiceTab {
    Services,
    Ingresses,
}

/// State of the services and ingresses view.
pub struct ServicesView {
    pub search_filter: String,
    pub selected_service: Option<ServiceInfo>,
    pub selected_ingress: Option<IngressInfo>,
    pub active_tab: ServiceTab,
}

impl Default for ServicesView {
    fn default() -> (r: Self)
        ensures
            r.search_filter@.len() == 0,
            r.selected_service is None,
            r.selected_ingress is None,
            r.active_tab == ServiceTab::Services,
    {
        ServicesView {
            search_filter: String::new(),
            selected_service: None,
            selected_ingress: None,
            active_tab: ServiceTab::Services,
        }
    }
}

// ---------------------------------------------------------------------
// Config view
// ---------------------------------------------------------------------

/// Which tab of the configuration view is active.
#[derive(Clone, Copy, Debug, PartialEq, Eq, Structural)]
pub enum ConfigTab {
    ConfigMaps,
    Secrets,
}

/// An intent emitted from the configuration view: replace the data of
/// `(namespace, name)` with the given pairs.
#[derive(Clone, Debug)]
pub enum ConfigAction {
    UpdateConfigMap(String, String, Vec<KeyValue>),
}

/// State of the configuration view, including the in-progress edit of
/// one configuration map's data.
pub struct ConfigView {
    pub search_filter: String,
    pub active_tab: ConfigTab,
    pub selected_configmap: Option<ConfigMapInfo>,
    pub selected_secret: Option<SecretInfo>,
    pub editing_configmap: bool,
    pub edit_data: Vec<KeyValue>,
    pub new_key: String,
    pub new_value: String,
    pub pending_action: Option<ConfigAction>,
}

impl Default for ConfigView {
    fn default() -> (r: Self)
        ensures
            r.search_filter@.len() == 0,
            r.active_tab == ConfigTab::ConfigMaps,
            r.selected_configmap is None,
            r.selected_secret is None,
            !r.editing_configmap,
            r.edit_data@.len() == 0,
            r.new_key@.len() == 0,
            r.new_value@.len() == 0,
            r.pending_action is None,
    {
        ConfigView {
            search_filter: String::new(),
            active_tab: ConfigTab::ConfigMaps,
            selected_configmap: None,
            selected_secret: None,
            editing_configmap: false,
            edit_data: Vec::new(),
            new_key: String::new(),
            new_value: String::new(),
            pending_action: None,
        }
    }
}

// ---------------------------------------------------------------------
// Jobs view
// ---------------------------------------------------------------------

/// An intent emitted from the jobs table.
#[derive(Clone, Debug)]
pub enum JobAction {
    Delete(String, String),
}

/// State of the jobs view.
pub struct JobsView {
    pub search_filter: String,
    pub selected_job: Option<JobInfo>,
    pub show_delete_dialog: bool,
    pub pending_action: Option<JobAction>,
}

impl Default for JobsView {
    fn default() -> (r: Self)
        ensures
            r.search_filter@.len() == 0,
            r.selected_job is None,
            !r.show_delete_dialog,
            r.pending_action is None,
    {
        JobsView {
            search_filter: String::new(),
            selected_job: None,
            show_delete_dialog: false,
            pending_action: None,
        }
    }
}

// ---------------------------------------------------------------------
// CronJobs view
// ---------------------------------------------------------------------

/// An intent emitted from the scheduled-jobs table.
#[derive(Clone, Debug)]
pub enum CronJobAction {
    Trigger(String, String),
    Suspend(String, String, bool),
    GetHistory(String, String),
}

/// State of the scheduled-jobs view, including the run-history window
/// with its own loading flag.
pub struct CronJobsView {
    pub search_filter: String,
    pub selected_cronjob: Option<CronJobInfo>,
    pub show_history: bool,
    pub history_jobs: Vec<JobInfo>,
    pub history_loading: bool,
    pub pending_action: Option<CronJobAction>,
}

impl Default for CronJobsView {
    fn default() -> (r: Self)
        ensures
            r.search_filter@.len() == 0,
            r.selected_cronjob is None,
            !r.show_history,
            r.history_jobs@.len() == 0,
            !r.history_loading,
            r.pending_action is None,
    {
        CronJobsView {
            search_filter: String::new(),
            selected_cronjob: None,
            show_history: false,
            history_jobs: Vec::new(),
            history_loading: false,
            pending_action: None,
        }
    }
}

impl CronJobsView {
    /// Delivers a fetched run history: the window stops loading and
    /// shows exactly these jobs; nothing else changes.
    pub fn set_history(&mut self, jobs: Vec<JobInfo>)
        ensures
            final(self).history_jobs == jobs,
            !final(self).history_loading,
            final(self).search_filter == old(self).search_filter,
            final(self).selected_cronjob == old(self).selected_cronjob,
            final(self).show_history == old(self).show_history,
            final(self).pending_action == old(self).pending_action,
    {
        self.history_jobs = jobs;
        self.history_loading = false;
    }
}

} // verus!
