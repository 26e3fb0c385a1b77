//! The synchronization core: per-kind loading flags, last-known data and
//! last error, the notification queue, and the state machine that a
//! presentation loop drives. Once per tick the loop applies every
//! outcome drained from the dispatch bus, expires stale notifications,
//! and carries out the returned commands (spawning fetches and
//! mutations); the core itself never blocks and never performs I/O.
//!
//! Overlapping fetches of one kind are not fenced: outcomes apply in
//! delivery order, and the items of whichever outcome arrives last stand.

use vstd::prelude::*;
use vstd::string::*;
use crate::resources::{
    ConfigMapInfo, CronJobInfo, DeploymentInfo, FetchError, IngressInfo, JobInfo, KeyValue,
    MutateError, PodInfo, SecretInfo, ServiceInfo,
};
use crate::session::{ConfigData, ConnectError, Session};
use crate::session::{spec_initialized, spec_switched};
use crate::views::{
    ConfigAction, ConfigView, CronJobAction, CronJobsView, DeploymentAction, DeploymentsView,
    JobAction, JobsView, PodAction, PodsView, ServicesView,
};

verus! {

/// Which table the operator is looking at. Two of the views pair two
/// resource kinds on one screen.
#[derive(Clone, Copy, Debug, PartialEq, Eq, Structural)]
pub enum ViewKind {
    Deployments,
    Pods,
    Services,
    Config,
    Jobs,
    CronJobs,
}

/// One fetchable resource kind, each with its own snapshot.
#[derive(Clone, Copy, Debug, PartialEq, Eq, Structural)]
pub enum Kind {
    Deployments,
    Pods,
    Services,
    Ingresses,
    ConfigMaps,
    Secrets,
    Jobs,
    CronJobs,
}

/// The kinds a view shows, in the order they are fetched.
pub open spec fn spec_view_kinds(v: ViewKind) -> Seq<Kind> {
    match v {
        ViewKind::Deployments => seq![Kind::Deployments],
        ViewKind::Pods => seq![Kind::Pods],
        ViewKind::Services => seq![Kind::Services, Kind::Ingresses],
        ViewKind::Config => seq![Kind::ConfigMaps, Kind::Secrets],
        ViewKind::Jobs => seq![Kind::Jobs],
        ViewKind::CronJobs => seq![Kind::CronJobs],
    }
}

/// Whether a kind belongs to a view.
pub open spec fn spec_kind_in_view(v: ViewKind, k: Kind) -> bool {
    match v {
        ViewKind::Deployments => k == Kind::Deployments,
        ViewKind::Pods => k == Kind::Pods,
        ViewKind::Services => k == Kind::Services || k == Kind::Ingresses,
        ViewKind::Config => k == Kind::ConfigMaps || k == Kind::Secrets,
        ViewKind::Jobs => k == Kind::Jobs,
        ViewKind::CronJobs => k == Kind::CronJobs,
    }
}

/// A kind belongs to a view exactly when the view's fetch order lists it.
pub proof fn lemma_kind_in_view_listed(v: ViewKind, k: Kind)
    ensures
        spec_kind_in_view(v, k) <==> spec_view_kinds(v).contains(k),
{
    if spec_kind_in_view(v, k) {
        match v {
            ViewKind::Deployments => assert(spec_view_kinds(v)[0] == k),
            ViewKind::Pods => assert(spec_view_kinds(v)[0] == k),
            ViewKind::Services => {
                if k == Kind::Services {
                    assert(spec_view_kinds(v)[0] == k);
                } else {
                    assert(spec_view_kinds(v)[1] == k);
                }
            },
            ViewKind::Config => {
                if k == Kind::ConfigMaps {
                    assert(spec_view_kinds(v)[0] == k);
                } else {
                    assert(spec_view_kinds(v)[1] == k);
                }
            },
            ViewKind::Jobs => assert(spec_view_kinds(v)[0] == k),
            ViewKind::CronJobs => assert(spec_view_kinds(v)[0] == k),
        }
    }
}

/// The last-known data of one resource kind, its loading flag and its
/// last fetch error. Created empty; only the synchronization core
/// mutates it.
pub struct Snapshot<T> {
    pub items: Vec<T>,
    pub loading: bool,
    pub last_error: Option<String>,
}

/// What dispatching a fetch does to a snapshot: the loading flag is set,
/// the last error cleared, and the items left untouched.
pub open spec fn snapshot_begun<T>(pre: Snapshot<T>, post: Snapshot<T>) -> bool {
    &&& post.items == pre.items
    &&& post.loading
    &&& post.last_error is None
}

/// What a delivered fetch outcome does to a snapshot: loading ends
/// either way; success replaces the items wholesale and clears the
/// error, failure records the message and leaves the items untouched,
/// stale but displayable.
pub open spec fn snapshot_applied<T>(
    pre: Snapshot<T>,
    r: Result<Vec<T>, FetchError>,
    post: Snapshot<T>,
) -> bool {
    &&& !post.loading
    &&& (r matches Ok(items) ==> post.items == items && post.last_error is None)
    &&& (r matches Err(e) ==> post.items == pre.items && (post.last_error matches Some(m) && m
        == e.message))
}

impl<T> Snapshot<T> {
    /// An empty snapshot: no items, not loading, no error.
    pub fn new() -> (r: Self)
        ensures
            r.items@.len() == 0,
            !r.loading,
            r.last_error is None,
    {
        Snapshot { items: Vec::new(), loading: false, last_error: None }
    }

    /// Records that a fetch for this kind was dispatched.
    pub fn begin_fetch(&mut self)
        ensures
            snapshot_begun(*old(self), *final(self)),
    {
        self.loading = true;
        self.last_error = None;
    }

    /// Applies the outcome of a fetch for this kind.
    pub fn apply_result(&mut self, r: Result<Vec<T>, FetchError>)
        ensures
            snapshot_applied(*old(self), r, *final(self)),
    {
        self.loading = false;
        match r {
            Ok(items) => {
                self.items = items;
                self.last_error = None;
            },
            Err(e) => {
                self.last_error = Some(e.message);
            },
        }
    }
}

/// For every kind, a dispatched fetch request moves the snapshot to
/// loading from any state and clears the last error; a successful
/// outcome then replaces the items wholesale, and a failed outcome
/// records the error and leaves the items untouched.
pub proof fn lemma_fetch_lifecycle<T>(
    pre: Snapshot<T>,
    started: Snapshot<T>,
    ok_items: Vec<T>,
    after_ok: Snapshot<T>,
    err: FetchError,
    after_err: Snapshot<T>,
)
    requires
        snapshot_begun(pre, started),
        snapshot_applied(started, Ok(ok_items), after_ok),
        snapshot_applied(started, Err(err), after_err),
    ensures
        started.loading && started.last_error is None && started.items == pre.items,
        !after_ok.loading && after_ok.items == ok_items && after_ok.last_error is None,
        !after_err.loading && after_err.items == pre.items,
        after_err.last_error matches Some(m) && m == err.message,
{
}

/// With two fetches of one kind in flight, the snapshot ends with the
/// items of whichever outcome is delivered last, whatever the issue
/// order was.
pub proof fn lemma_last_outcome_wins<T>(
    s0: Snapshot<T>,
    s1: Snapshot<T>,
    s2: Snapshot<T>,
    first: Vec<T>,
    second: Vec<T>,
)
    requires
        snapshot_applied(s0, Ok(first), s1),
        snapshot_applied(s1, Ok(second), s2),
    ensures
        s2.items == second,
{
}

/// How long a notification stays visible, in milliseconds.
pub open spec fn spec_retention_ms() -> int {
    5000
}

/// One transient notification.
#[derive(Debug)]
pub struct Notification {
    pub text: String,
    pub is_error: bool,
    pub created_at_ms: u64,
}

impl Clone for Notification {
    fn clone(&self) -> (r: Self)
        ensures
            r == *self,
    {
        Notification {
            text: self.text.clone(),
            is_error: self.is_error,
            created_at_ms: self.created_at_ms,
        }
    }
}

/// Whether a notification is still shown at `now`: strictly younger
/// than the retention window. One created in the future counts as
/// fresh.
pub open spec fn spec_fresh(n: Notification, now: u64) -> bool {
    (now as int) - (n.created_at_ms as int) < spec_retention_ms()
}

/// The notifications kept at `now`: exactly the fresh ones, order kept.
pub open spec fn spec_retained(s: Seq<Notification>, now: u64) -> Seq<Notification>
    decreases s.len(),
{
    if s.len() == 0 {
        Seq::empty()
    } else {
        spec_retained(s.drop_last(), now) + if spec_fresh(s.last(), now) {
            seq![s.last()]
        } else {
            Seq::empty()
        }
    }
}

/// A notification that has outlived the retention window is absent from
/// the retained sequence.
pub proof fn lemma_expired_notification_absent(s: Seq<Notification>, now: u64, n: Notification)
    requires
        (now as int) - (n.created_at_ms as int) >= spec_retention_ms(),
    ensures
        !spec_retained(s, now).contains(n),
    decreases s.len(),
{
    if s.len() > 0 {
        lemma_expired_notification_absent(s.drop_last(), now, n);
        assert forall|i: int| 0 <= i < spec_retained(s, now).len() implies spec_retained(s, now)[i]
            != n by {
            let kept = spec_retained(s.drop_last(), now);
            if i < kept.len() {
                assert(kept[i] != n);
            } else {
                assert(spec_retained(s, now)[i] == s.last());
                assert(spec_fresh(s.last(), now));
            }
        }
    }
}

/// Every notification in the retained sequence is fresh.
pub proof fn lemma_retained_all_fresh(s: Seq<Notification>, now: u64)
    ensures
        forall|i: int|
            0 <= i < spec_retained(s, now).len() ==> spec_fresh(
                #[trigger] spec_retained(s, now)[i],
                now,
            ),
    decreases s.len(),
{
    if s.len() > 0 {
        lemma_retained_all_fresh(s.drop_last(), now);
        let kept = spec_retained(s.drop_last(), now);
        assert forall|i: int| 0 <= i < spec_retained(s, now).len() implies spec_fresh(
            #[trigger] spec_retained(s, now)[i],
            now,
        ) by {
            if i < kept.len() {
                assert(spec_retained(s, now)[i] == kept[i]);
            } else {
                assert(spec_fresh(s.last(), now));
                assert(spec_retained(s, now)[i] == s.last());
            }
        }
    }
}

/// A notification's text appended to a sequence: the prior entries are
/// kept in order and one entry with this text, flag and creation time
/// stands at the end.
pub open spec fn spec_notified(
    pre: Seq<Notification>,
    post: Seq<Notification>,
    text: Seq<char>,
    is_error: bool,
    now: u64,
) -> bool {
    &&& post.len() == pre.len() + 1
    &&& post.take(pre.len() as int) == pre
    &&& post.last().text@ == text
    &&& post.last().is_error == is_error
    &&& post.last().created_at_ms == now
}

/// One mutating operation the core asks the gateway to perform.
#[derive(Clone, Debug, PartialEq)]
pub enum MutateRequest {
    ScaleDeployment { namespace: String, name: String, replicas: i32 },
    RestartDeployment { namespace: String, name: String },
    DeleteDeployment { namespace: String, name: String },
    DeletePod { namespace: String, name: String },
    UpdateConfigMap { namespace: String, name: String, data: Vec<KeyValue> },
    DeleteJob { namespace: String, name: String },
    TriggerCronJob { namespace: String, name: String },
    SuspendCronJob { namespace: String, name: String, suspend: bool },
}

/// One piece of outside work the core asks its driver to start. Each
/// command spawns one background operation that will deliver exactly one
/// [`Outcome`].
#[derive(Clone, Debug, PartialEq)]
pub enum Command {
    /// Bring the session up: read configuration and connect.
    Initialize,
    /// Connect a new session scoped to this context name.
    SwitchContext(String),
    /// List the namespaces visible to the connection.
    FetchNamespaces,
    /// List one kind, filtered to one namespace or all.
    Fetch { kind: Kind, namespace: Option<String> },
    /// Perform one mutation.
    Mutate(MutateRequest),
    /// Stream the tail of one container's log.
    FetchLogs { namespace: String, pod: String, container: Option<String>, tail_lines: i64 },
    /// Fetch the run history of one scheduled job.
    FetchHistory { namespace: String, name: String },
}

/// The fetch commands a refresh of a view issues: one per kind of the
/// view, in view order, all with the same namespace filter.
pub open spec fn spec_fetch_commands(v: ViewKind, ns: Option<String>) -> Seq<Command> {
    spec_view_kinds(v).map_values(|k: Kind| Command::Fetch { kind: k, namespace: ns })
}

/// A message delivered through the dispatch bus: the result of exactly
/// one completed background operation.
#[derive(Debug)]
pub enum Outcome {
    /// Bring-up finished: the configuration read and the connection
    /// attempt for its current context.
    Initialized { config: Result<ConfigData, String>, conn: Result<u64, String> },
    /// The namespace listing finished; a failed listing is dropped by
    /// the driver and delivers nothing.
    NamespacesLoaded(Vec<String>),
    /// A context switch attempt towards `name` finished.
    ContextSwitched { name: String, conn: Result<u64, String> },
    DeploymentsLoaded(Result<Vec<DeploymentInfo>, FetchError>),
    PodsLoaded(Result<Vec<PodInfo>, FetchError>),
    ServicesLoaded(Result<Vec<ServiceInfo>, FetchError>),
    IngressesLoaded(Result<Vec<IngressInfo>, FetchError>),
    ConfigMapsLoaded(Result<Vec<ConfigMapInfo>, FetchError>),
    SecretsLoaded(Result<Vec<SecretInfo>, FetchError>),
    JobsLoaded(Result<Vec<JobInfo>, FetchError>),
    CronJobsLoaded(Result<Vec<CronJobInfo>, FetchError>),
    /// The log side-channel finished.
    PodLogsLoaded(Result<String, FetchError>),
    /// The run-history fetch finished.
    CronJobHistoryLoaded(Result<Vec<JobInfo>, FetchError>),
    /// A mutation finished, successfully with its confirmation text or
    /// with an error.
    ActionCompleted(Result<String, MutateError>),
}

/// One user-intent event the presentation layer hands the core.
#[derive(Debug)]
pub enum Intent {
    SelectContext(String),
    SelectNamespace(Option<String>),
    SelectView(ViewKind),
    Refresh,
    RetryInitialize,
    Deployment(DeploymentAction),
    Pod(PodAction),
    Config(ConfigAction),
    Job(JobAction),
    CronJob(CronJobAction),
}

/// The synchronization core's whole state: the session, per-kind
/// snapshots, navigation, per-view interaction state and notifications.
pub struct SyncCore {
    pub session: Session,
    pub initialized: bool,
    pub init_error: Option<String>,
    pub current_view: ViewKind,
    pub selected_namespace: Option<String>,
    pub namespaces: Vec<String>,
    pub deployments: Snapshot<DeploymentInfo>,
    pub pods: Snapshot<PodInfo>,
    pub services: Snapshot<ServiceInfo>,
    pub ingresses: Snapshot<IngressInfo>,
    pub configmaps: Snapshot<ConfigMapInfo>,
    pub secrets: Snapshot<SecretInfo>,
    pub jobs: Snapshot<JobInfo>,
    pub cronjobs: Snapshot<CronJobInfo>,
    pub deployments_view: DeploymentsView,
    pub pods_view: PodsView,
    pub services_view: ServicesView,
    pub config_view: ConfigView,
    pub jobs_view: JobsView,
    pub cronjobs_view: CronJobsView,
    pub notifications: Vec<Notification>,
}

/// Whether one kind's snapshot is loading.
pub open spec fn spec_kind_loading(c: SyncCore, k: Kind) -> bool {
    match k {
        Kind::Deployments => c.deployments.loading,
        Kind::Pods => c.pods.loading,
        Kind::Services => c.services.loading,
        Kind::Ingresses => c.ingresses.loading,
        Kind::ConfigMaps => c.configmaps.loading,
        Kind::Secrets => c.secrets.loading,
        Kind::Jobs => c.jobs.loading,
        Kind::CronJobs => c.cronjobs.loading,
    }
}

/// Whether one kind's snapshot is identical in two core states.
pub open spec fn spec_kind_unchanged(pre: SyncCore, post: SyncCore, k: Kind) -> bool {
    match k {
        Kind::Deployments => post.deployments == pre.deployments,
        Kind::Pods => post.pods == pre.pods,
        Kind::Services => post.services == pre.services,
        Kind::Ingresses => post.ingresses == pre.ingresses,
        Kind::ConfigMaps => post.configmaps == pre.configmaps,
        Kind::Secrets => post.secrets == pre.secrets,
        Kind::Jobs => post.jobs == pre.jobs,
        Kind::CronJobs => post.cronjobs == pre.cronjobs,
    }
}

/// What a refresh of view `v` does to the snapshots: every kind of the
/// view begins a fetch, every other kind is untouched.
pub open spec fn spec_snapshots_refreshed(pre: SyncCore, post: SyncCore, v: ViewKind) -> bool {
    &&& if spec_kind_in_view(v, Kind::Deployments) {
        snapshot_begun(pre.deployments, post.deployments)
    } else {
        post.deployments == pre.deployments
    }
    &&& if spec_kind_in_view(v, Kind::Pods) {
        snapshot_begun(pre.pods, post.pods)
    } else {
        post.pods == pre.pods
    }
    &&& if spec_kind_in_view(v, Kind::Services) {
        snapshot_begun(pre.services, post.services)
    } else {
        post.services == pre.services
    }
    &&& if spec_kind_in_view(v, Kind::Ingresses) {
        snapshot_begun(pre.ingresses, post.ingresses)
    } else {
        post.ingresses == pre.ingresses
    }
    &&& if spec_kind_in_view(v, Kind::ConfigMaps) {
        snapshot_begun(pre.configmaps, post.configmaps)
    } else {
        post.configmaps == pre.configmaps
    }
    &&& if spec_kind_in_view(v, Kind::Secrets) {
        snapshot_begun(pre.secrets, post.secrets)
    } else {
        post.secrets == pre.secrets
    }
    &&& if spec_kind_in_view(v, Kind::Jobs) {
        snapshot_begun(pre.jobs, post.jobs)
    } else {
        post.jobs == pre.jobs
    }
    &&& if spec_kind_in_view(v, Kind::CronJobs) {
        snapshot_begun(pre.cronjobs, post.cronjobs)
    } else {
        post.cronjobs == pre.cronjobs
    }
}

/// Everything of the core except the eight snapshots is identical in
/// the two states.
pub open spec fn spec_same_but_snapshots(pre: SyncCore, post: SyncCore) -> bool {
    post == SyncCore {
        deployments: post.deployments,
        pods: post.pods,
        services: post.services,
        ingresses: post.ingresses,
        configmaps: post.configmaps,
        secrets: post.secrets,
        jobs: post.jobs,
        cronjobs: post.cronjobs,
        ..pre
    }
}

/// What a refresh of the current view does: the view's kinds begin
/// fetching, nothing else changes, and one fetch command per kind of
/// the view is issued, with the currently selected namespace filter.
pub open spec fn spec_refresh(pre: SyncCore, post: SyncCore, cmds: Seq<Command>) -> bool {
    &&& spec_snapshots_refreshed(pre, post, pre.current_view)
    &&& spec_same_but_snapshots(pre, post)
    &&& cmds == spec_fetch_commands(pre.current_view, pre.selected_namespace)
}

fn clone_opt_string(o: &Option<String>) -> (r: Option<String>)
    ensures
        r == *o,
{
    match o {
        Some(s) => Some(s.clone()),
        None => None,
    }
}

impl SyncCore {
    /// A fresh core: an empty session, every snapshot empty, the
    /// deployments view active, no namespace filter, no notifications.
    pub fn new() -> (r: SyncCore)
        ensures
            r.session.connection is None,
            r.session.active_context is None,
            r.session.known_contexts@.len() == 0,
            !r.initialized,
            r.init_error is None,
            r.current_view == ViewKind::Deployments,
            r.selected_namespace is None,
            r.namespaces@.len() == 0,
            r.deployments.items@.len() == 0 && !r.deployments.loading && r.deployments.last_error
                is None,
            r.pods.items@.len() == 0 && !r.pods.loading && r.pods.last_error is None,
            r.services.items@.len() == 0 && !r.services.loading && r.services.last_error is None,
            r.ingresses.items@.len() == 0 && !r.ingresses.loading && r.ingresses.last_error
                is None,
            r.configmaps.items@.len() == 0 && !r.configmaps.loading && r.configmaps.last_error
                is None,
            r.secrets.items@.len() == 0 && !r.secrets.loading && r.secrets.last_error is None,
            r.jobs.items@.len() == 0 && !r.jobs.loading && r.jobs.last_error is None,
            r.cronjobs.items@.len() == 0 && !r.cronjobs.loading && r.cronjobs.last_error is None,
            r.notifications@.len() == 0,
    {
        SyncCore {
            session: Session::new(),
            initialized: false,
            init_error: None,
            current_view: ViewKind::Deployments,
            selected_namespace: None,
            namespaces: Vec::new(),
            deployments: Snapshot::new(),
            pods: Snapshot::new(),
            services: Snapshot::new(),
            ingresses: Snapshot::new(),
            configmaps: Snapshot::new(),
            secrets: Snapshot::new(),
            jobs: Snapshot::new(),
            cronjobs: Snapshot::new(),
            deployments_view: DeploymentsView::default(),
            pods_view: PodsView::default(),
            services_view: ServicesView::default(),
            config_view: ConfigView::default(),
            jobs_view: JobsView::default(),
            cronjobs_view: CronJobsView::default(),
            notifications: Vec::new(),
        }
    }

    /// Re-enters `Loading` for every kind of the current view and
    /// returns the fetch commands to start, one per kind.
    pub fn refresh_current_view(&mut self) -> (cmds: Vec<Command>)
        ensures
            spec_refresh(*old(self), *final(self), cmds@),
    {
        let ns: Option<String> = clone_opt_string(&self.selected_namespace);
        let mut cmds: Vec<Command> = Vec::new();
        match self.current_view {
            ViewKind::Deployments => {
                self.deployments.begin_fetch();
                cmds.push(Command::Fetch { kind: Kind::Deployments, namespace: ns });
            },
            ViewKind::Pods => {
                self.pods.begin_fetch();
                cmds.push(Command::Fetch { kind: Kind::Pods, namespace: ns });
            },
            ViewKind::Services => {
                self.services.begin_fetch();
                self.ingresses.begin_fetch();
                let ns2: Option<String> = clone_opt_string(&ns);
                cmds.push(Command::Fetch { kind: Kind::Services, namespace: ns });
                cmds.push(Command::Fetch { kind: Kind::Ingresses, namespace: ns2 });
            },
            ViewKind::Config => {
                self.configmaps.begin_fetch();
                self.secrets.begin_fetch();
                let ns2: Option<String> = clone_opt_string(&ns);
                cmds.push(Command::Fetch { kind: Kind::ConfigMaps, namespace: ns });
                cmds.push(Command::Fetch { kind: Kind::Secrets, namespace: ns2 });
            },
            ViewKind::Jobs => {
                self.jobs.begin_fetch();
                cmds.push(Command::Fetch { kind: Kind::Jobs, namespace: ns });
            },
            ViewKind::CronJobs => {
                self.cronjobs.begin_fetch();
                cmds.push(Command::Fetch { kind: Kind::CronJobs, namespace: ns });
            },
        }
        proof {
            assert(cmds@ =~= spec_fetch_commands(old(self).current_view, old(self).selected_namespace));
        }
        cmds
    }

    /// Appends one notification created at `now_ms`.
    pub fn add_notification(&mut self, text: String, is_error: bool, now_ms: u64)
        ensures
            spec_notified(old(self).notifications@, final(self).notifications@, text@, is_error, now_ms),
            *final(self) == (SyncCore { notifications: final(self).notifications, ..*old(self) }),
    {
        self.notifications.push(Notification { text, is_error, created_at_ms: now_ms });
        proof {
            assert(final(self).notifications@.take(old(self).notifications@.len() as int)
                =~= old(self).notifications@);
        }
    }

    /// Drops every notification older than the retention window; the
    /// fresh ones stay, in order. Part of each tick.
    pub fn expire_notifications(&mut self, now_ms: u64)
        ensures
            final(self).notifications@ == spec_retained(old(self).notifications@, now_ms),
            *final(self) == (SyncCore { notifications: final(self).notifications, ..*old(self) }),
    {
        let mut kept: Vec<Notification> = Vec::new();
        let mut i: usize = 0;
        let n: usize = self.notifications.len();
        while i < n
            invariant
                i <= n,
                n == self.notifications@.len(),
                kept@ == spec_retained(self.notifications@.take(i as int), now_ms),
            decreases n - i,
        {
            let ghost pre = self.notifications@.take(i as int);
            let created: u64 = self.notifications[i].created_at_ms;
            let fresh: bool = if now_ms >= created {
                now_ms - created < 5000
            } else {
                true
            };
            if fresh {
                kept.push(self.notifications[i].clone());
            }
            i = i + 1;
            proof {
                let post = self.notifications@.take(i as int);
                assert(post.drop_last() =~= pre);
                assert(post.last() == self.notifications@[i - 1]);
                assert(kept@ =~= spec_retained(post, now_ms));
            }
        }
        proof {
            assert(self.notifications@.take(n as int) =~= self.notifications@);
        }
        self.notifications = kept;
    }
}

/// The result a bring-up attempt determines: a failed configuration read
/// dominates, then a failed connection, else success.
pub open spec fn spec_init_result(
    config: Result<ConfigData, String>,
    conn: Result<u64, String>,
) -> Result<(), ConnectError> {
    match config {
        Err(d) => Err(ConnectError::ConfigUnavailable { detail: d }),
        Ok(c) => match conn {
            Err(d) => Err(ConnectError::Unreachable { detail: d }),
            Ok(h) => Ok(()),
        },
    }
}

/// The result a context switch attempt determines: an unknown name
/// dominates, then a failed connection, else success.
pub open spec fn spec_switch_result(s: Session, name: String, conn: Result<u64, String>) -> Result<
    (),
    ConnectError,
> {
    if !s.spec_has_context(name@) {
        Err(ConnectError::UnknownContext { name })
    } else {
        match conn {
            Err(d) => Err(ConnectError::Unreachable { detail: d }),
            Ok(h) => Ok(()),
        }
    }
}

/// How one delivered outcome, at `now`, takes the core from `pre` to
/// `post` and which commands it issues. This is the contract of
/// [`SyncCore::apply_outcome`], one arm per message of the dispatch bus.
pub open spec fn spec_step(
    pre: SyncCore,
    o: Outcome,
    now: u64,
    post: SyncCore,
    cmds: Seq<Command>,
) -> bool {
    match o {
        Outcome::Initialized { config, conn } => {
            let r = spec_init_result(config, conn);
            &&& spec_initialized(pre.session, config, conn, post.session, r)
            &&& if r is Ok {
                &&& post.initialized
                &&& spec_snapshots_refreshed(pre, post, pre.current_view)
                &&& cmds == spec_fetch_commands(pre.current_view, pre.selected_namespace)
                &&& post == (SyncCore {
                    session: post.session,
                    initialized: post.initialized,
                    deployments: post.deployments,
                    pods: post.pods,
                    services: post.services,
                    ingresses: post.ingresses,
                    configmaps: post.configmaps,
                    secrets: post.secrets,
                    jobs: post.jobs,
                    cronjobs: post.cronjobs,
                    ..pre
                })
            } else {
                &&& (r matches Err(e) && post.init_error matches Some(m) && m@ == e.spec_message())
                &&& cmds.len() == 0
                &&& post == (SyncCore { session: post.session, init_error: post.init_error, ..pre })
            }
        },
        Outcome::NamespacesLoaded(ns) => {
            &&& post.namespaces == ns
            &&& post == (SyncCore { namespaces: post.namespaces, ..pre })
            &&& cmds.len() == 0
        },
        Outcome::ContextSwitched { name, conn } => {
            let r = spec_switch_result(pre.session, name, conn);
            &&& spec_switched(pre.session, name@, conn, post.session, r)
            &&& if r is Ok {
                &&& spec_notified(
                    pre.notifications@,
                    post.notifications@,
                    "Context switched successfully"@,
                    false,
                    now,
                )
                &&& spec_snapshots_refreshed(pre, post, pre.current_view)
                &&& cmds == seq![Command::FetchNamespaces] + spec_fetch_commands(
                    pre.current_view,
                    pre.selected_namespace,
                )
                &&& post == (SyncCore {
                    session: post.session,
                    notifications: post.notifications,
                    deployments: post.deployments,
                    pods: post.pods,
                    services: post.services,
                    ingresses: post.ingresses,
                    configmaps: post.configmaps,
                    secrets: post.secrets,
                    jobs: post.jobs,
                    cronjobs: post.cronjobs,
                    ..pre
                })
            } else {
                &&& (r matches Err(e) && spec_notified(
                    pre.notifications@,
                    post.notifications@,
                    "Failed to switch context: "@ + e.spec_message(),
                    true,
                    now,
                ))
                &&& post == (SyncCore {
                    session: post.session,
                    notifications: post.notifications,
                    ..pre
                })
                &&& cmds.len() == 0
            }
        },
        Outcome::DeploymentsLoaded(r) => {
            &&& snapshot_applied(pre.deployments, r, post.deployments)
            &&& post == (SyncCore { deployments: post.deployments, ..pre })
            &&& cmds.len() == 0
        },
        Outcome::PodsLoaded(r) => {
            &&& snapshot_applied(pre.pods, r, post.pods)
            &&& post == (SyncCore { pods: post.pods, ..pre })
            &&& cmds.len() == 0
        },
        Outcome::ServicesLoaded(r) => {
            &&& snapshot_applied(pre.services, r, post.services)
            &&& post == (SyncCore { services: post.services, ..pre })
            &&& cmds.len() == 0
        },
        Outcome::IngressesLoaded(r) => {
            &&& snapshot_applied(pre.ingresses, r, post.ingresses)
            &&& post == (SyncCore { ingresses: post.ingresses, ..pre })
            &&& cmds.len() == 0
        },
        Outcome::ConfigMapsLoaded(r) => {
            &&& snapshot_applied(pre.configmaps, r, post.configmaps)
            &&& post == (SyncCore { configmaps: post.configmaps, ..pre })
            &&& cmds.len() == 0
        },
        Outcome::SecretsLoaded(r) => {
            &&& snapshot_applied(pre.secrets, r, post.secrets)
            &&& post == (SyncCore { secrets: post.secrets, ..pre })
            &&& cmds.len() == 0
        },
        Outcome::JobsLoaded(r) => {
            &&& snapshot_applied(pre.jobs, r, post.jobs)
            &&& post == (SyncCore { jobs: post.jobs, ..pre })
            &&& cmds.len() == 0
        },
        Outcome::CronJobsLoaded(r) => {
            &&& snapshot_applied(pre.cronjobs, r, post.cronjobs)
            &&& post == (SyncCore { cronjobs: post.cronjobs, ..pre })
            &&& cmds.len() == 0
        },
        Outcome::PodLogsLoaded(r) => {
            &&& match r {
                Ok(logs) => post.pods_view.logs_content == logs,
                Err(e) => post.pods_view.logs_content@ == "Error: "@ + e.message@,
            }
            &&& post.pods_view == (PodsView {
                logs_content: post.pods_view.logs_content,
                logs_loading: false,
                ..pre.pods_view
            })
            &&& post == (SyncCore { pods_view: post.pods_view, ..pre })
            &&& cmds.len() == 0
        },
        Outcome::CronJobHistoryLoaded(r) => match r {
            Ok(jobs) => {
                &&& post.cronjobs_view == (CronJobsView {
                    history_jobs: jobs,
                    history_loading: false,
                    ..pre.cronjobs_view
                })
                &&& post == (SyncCore { cronjobs_view: post.cronjobs_view, ..pre })
                &&& cmds.len() == 0
            },
            Err(e) => {
                &&& spec_notified(
                    pre.notifications@,
                    post.notifications@,
                    "Failed to load history: "@ + e.message@,
                    true,
                    now,
                )
                &&& post.cronjobs_view.history_jobs@.len() == 0
                &&& post.cronjobs_view == (CronJobsView {
                    history_jobs: post.cronjobs_view.history_jobs,
                    history_loading: false,
                    ..pre.cronjobs_view
                })
                &&& post == (SyncCore {
                    cronjobs_view: post.cronjobs_view,
                    notifications: post.notifications,
                    ..pre
                })
                &&& cmds.len() == 0
            },
        },
        Outcome::ActionCompleted(r) => match r {
            Ok(msg) => {
                &&& spec_notified(pre.notifications@, post.notifications@, msg@, false, now)
                &&& spec_snapshots_refreshed(pre, post, pre.current_view)
                &&& cmds == spec_fetch_commands(pre.current_view, pre.selected_namespace)
                &&& post == (SyncCore {
                    notifications: post.notifications,
                    deployments: post.deployments,
                    pods: post.pods,
                    services: post.services,
                    ingresses: post.ingresses,
                    configmaps: post.configmaps,
                    secrets: post.secrets,
                    jobs: post.jobs,
                    cronjobs: post.cronjobs,
                    ..pre
                })
            },
            Err(e) => {
                &&& spec_notified(
                    pre.notifications@,
                    post.notifications@,
                    "Error: "@ + e.message@,
                    true,
                    now,
                )
                &&& post == (SyncCore { notifications: post.notifications, ..pre })
                &&& cmds.len() == 0
            },
        },
    }
}

/// The mutation a deployment intent asks for.
pub open spec fn spec_deployment_request(a: DeploymentAction) -> MutateRequest {
    match a {
        DeploymentAction::Scale(ns, n, r) => MutateRequest::ScaleDeployment {
            namespace: ns,
            name: n,
            replicas: r,
        },
        DeploymentAction::Restart(ns, n) => MutateRequest::RestartDeployment {
            namespace: ns,
            name: n,
        },
        DeploymentAction::Delete(ns, n) => MutateRequest::DeleteDeployment {
            namespace: ns,
            name: n,
        },
    }
}

/// How one user-intent event takes the core from `pre` to `post` and
/// which commands it issues. This is the contract of
/// [`SyncCore::handle_intent`]. Mutations flip no kind's loading flag;
/// the log side-channel has its own.
pub open spec fn spec_intent(pre: SyncCore, intent: Intent, post: SyncCore, cmds: Seq<Command>) -> bool {
    match intent {
        Intent::SelectContext(name) => {
            &&& post == pre
            &&& cmds == seq![Command::SwitchContext(name)]
        },
        Intent::SelectNamespace(ns) => {
            &&& post.selected_namespace == ns
            &&& spec_snapshots_refreshed(pre, post, pre.current_view)
            &&& cmds == spec_fetch_commands(pre.current_view, ns)
            &&& post == (SyncCore {
                selected_namespace: post.selected_namespace,
                deployments: post.deployments,
                pods: post.pods,
                services: post.services,
                ingresses: post.ingresses,
                configmaps: post.configmaps,
                secrets: post.secrets,
                jobs: post.jobs,
                cronjobs: post.cronjobs,
                ..pre
            })
        },
        Intent::SelectView(v) => {
            &&& post.current_view == v
            &&& spec_snapshots_refreshed(pre, post, v)
            &&& cmds == spec_fetch_commands(v, pre.selected_namespace)
            &&& post == (SyncCore {
                current_view: post.current_view,
                deployments: post.deployments,
                pods: post.pods,
                services: post.services,
                ingresses: post.ingresses,
                configmaps: post.configmaps,
                secrets: post.secrets,
                jobs: post.jobs,
                cronjobs: post.cronjobs,
                ..pre
            })
        },
        Intent::Refresh => spec_refresh(pre, post, cmds),
        Intent::RetryInitialize => {
            &&& post.init_error is None
            &&& post == (SyncCore { init_error: None, ..pre })
            &&& cmds == seq![Command::Initialize]
        },
        Intent::Deployment(a) => {
            &&& post == pre
            &&& cmds == seq![Command::Mutate(spec_deployment_request(a))]
        },
        Intent::Pod(a) => match a {
            PodAction::Delete(ns, n) => {
                &&& post == pre
                &&& cmds == seq![
                    Command::Mutate(MutateRequest::DeletePod { namespace: ns, name: n }),
                ]
            },
            PodAction::GetLogs(ns, n, c, t) => {
                &&& post.pods_view == (PodsView { logs_loading: true, ..pre.pods_view })
                &&& post == (SyncCore { pods_view: post.pods_view, ..pre })
                &&& cmds == seq![
                    Command::FetchLogs { namespace: ns, pod: n, container: c, tail_lines: t },
                ]
            },
        },
        Intent::Config(a) => match a {
            ConfigAction::UpdateConfigMap(ns, n, d) => {
                &&& post == pre
                &&& cmds == seq![
                    Command::Mutate(
                        MutateRequest::UpdateConfigMap { namespace: ns, name: n, data: d },
                    ),
                ]
            },
        },
        Intent::Job(a) => match a {
            JobAction::Delete(ns, n) => {
                &&& post == pre
                &&& cmds == seq![
                    Command::Mutate(MutateRequest::DeleteJob { namespace: ns, name: n }),
                ]
            },
        },
        Intent::CronJob(a) => match a {
            CronJobAction::Trigger(ns, n) => {
                &&& post == pre
                &&& cmds == seq![
                    Command::Mutate(MutateRequest::TriggerCronJob { namespace: ns, name: n }),
                ]
            },
            CronJobAction::Suspend(ns, n, s) => {
                &&& post == pre
                &&& cmds == seq![
                    Command::Mutate(
                        MutateRequest::SuspendCronJob { namespace: ns, name: n, suspend: s },
                    ),
                ]
            },
            CronJobAction::GetHistory(ns, n) => {
                &&& post == pre
                &&& cmds == seq![Command::FetchHistory { namespace: ns, name: n }]
            },
        },
    }
}

impl SyncCore {
    /// Applies one outcome drained from the dispatch bus, at `now_ms`,
    /// and returns the commands to start in its wake. Each outcome is
    /// consumed exactly once; the core only records state and never
    /// re-raises a failure.
    pub fn apply_outcome(&mut self, o: Outcome, now_ms: u64) -> (cmds: Vec<Command>)
        ensures
            spec_step(*old(self), o, now_ms, *final(self), cmds@),
    {
        match o {
            Outcome::Initialized { config, conn } => {
                let r = self.session.initialize(config, conn);
                match r {
                    Ok(()) => {
                        self.initialized = true;
                        self.refresh_current_view()
                    },
                    Err(e) => {
                        self.init_error = Some(e.message());
                        Vec::new()
                    },
                }
            },
            Outcome::NamespacesLoaded(ns) => {
                self.namespaces = ns;
                Vec::new()
            },
            Outcome::ContextSwitched { name, conn } => {
                let r = self.session.switch_context(name, conn);
                match r {
                    Ok(()) => {
                        self.add_notification(
                            String::from_str("Context switched successfully"),
                            false,
                            now_ms,
                        );
                        let mut cmds: Vec<Command> = Vec::new();
                        cmds.push(Command::FetchNamespaces);
                        let mut more: Vec<Command> = self.refresh_current_view();
                        cmds.append(&mut more);
                        proof {
                            assert(cmds@ =~= seq![Command::FetchNamespaces]
                                + spec_fetch_commands(
                                old(self).current_view,
                                old(self).selected_namespace,
                            ));
                        }
                        cmds
                    },
                    Err(e) => {
                        let mut text: String = String::from_str("Failed to switch context: ");
                        let msg: String = e.message();
                        text.append(msg.as_str());
                        self.add_notification(text, true, now_ms);
                        Vec::new()
                    },
                }
            },
            Outcome::DeploymentsLoaded(r) => {
                self.deployments.apply_result(r);
                Vec::new()
            },
            Outcome::PodsLoaded(r) => {
                self.pods.apply_result(r);
                Vec::new()
            },
            Outcome::ServicesLoaded(r) => {
                self.services.apply_result(r);
                Vec::new()
            },
            Outcome::IngressesLoaded(r) => {
                self.ingresses.apply_result(r);
                Vec::new()
            },
            Outcome::ConfigMapsLoaded(r) => {
                self.configmaps.apply_result(r);
                Vec::new()
            },
            Outcome::SecretsLoaded(r) => {
                self.secrets.apply_result(r);
                Vec::new()
            },
            Outcome::JobsLoaded(r) => {
                self.jobs.apply_result(r);
                Vec::new()
            },
            Outcome::CronJobsLoaded(r) => {
                self.cronjobs.apply_result(r);
                Vec::new()
            },
            Outcome::PodLogsLoaded(r) => {
                match r {
                    Ok(logs) => {
                        self.pods_view.set_logs(logs);
                    },
                    Err(e) => {
                        let mut text: String = String::from_str("Error: ");
                        text.append(e.message.as_str());
                        self.pods_view.set_logs(text);
                    },
                }
                Vec::new()
            },
            Outcome::CronJobHistoryLoaded(r) => {
                match r {
                    Ok(jobs) => {
                        self.cronjobs_view.set_history(jobs);
                    },
                    Err(e) => {
                        let mut text: String = String::from_str("Failed to load history: ");
                        text.append(e.message.as_str());
                        self.add_notification(text, true, now_ms);
                        self.cronjobs_view.set_history(Vec::new());
                    },
                }
                Vec::new()
            },
            Outcome::ActionCompleted(r) => match r {
                Ok(msg) => {
                    self.add_notification(msg, false, now_ms);
                    self.refresh_current_view()
                },
                Err(e) => {
                    let mut text: String = String::from_str("Error: ");
                    text.append(e.message.as_str());
                    self.add_notification(text, true, now_ms);
                    Vec::new()
                },
            },
        }
    }

    /// Turns one user-intent event into state changes and commands.
    pub fn handle_intent(&mut self, intent: Intent) -> (cmds: Vec<Command>)
        ensures
            spec_intent(*old(self), intent, *final(self), cmds@),
    {
        match intent {
            Intent::SelectContext(name) => {
                let mut cmds: Vec<Command> = Vec::new();
                cmds.push(Command::SwitchContext(name));
                proof {
                    assert(cmds@ =~= seq![Command::SwitchContext(name)]);
                }
                cmds
            },
            Intent::SelectNamespace(ns) => {
                self.selected_namespace = ns;
                self.refresh_current_view()
            },
            Intent::SelectView(v) => {
                self.current_view = v;
                self.refresh_current_view()
            },
            Intent::Refresh => self.refresh_current_view(),
            Intent::RetryInitialize => {
                self.init_error = None;
                let mut cmds: Vec<Command> = Vec::new();
                cmds.push(Command::Initialize);
                proof {
                    assert(cmds@ =~= seq![Command::Initialize]);
                }
                cmds
            },
            Intent::Deployment(a) => {
                let req: MutateRequest = match a {
                    DeploymentAction::Scale(ns, n, r) => MutateRequest::ScaleDeployment {
                        namespace: ns,
                        name: n,
                        replicas: r,
                    },
                    DeploymentAction::Restart(ns, n) => MutateRequest::RestartDeployment {
                        namespace: ns,
                        name: n,
                    },
                    DeploymentAction::Delete(ns, n) => MutateRequest::DeleteDeployment {
                        namespace: ns,
                        name: n,
                    },
                };
                let mut cmds: Vec<Command> = Vec::new();
                cmds.push(Command::Mutate(req));
                cmds
            },
            Intent::Pod(a) => match a {
                PodAction::Delete(ns, n) => {
                    let mut cmds: Vec<Command> = Vec::new();
                    cmds.push(Command::Mutate(MutateRequest::DeletePod { namespace: ns, name: n }));
                    cmds
                },
                PodAction::GetLogs(ns, n, c, t) => {
                    self.pods_view.set_logs_loading();
                    let mut cmds: Vec<Command> = Vec::new();
                    cmds.push(
                        Command::FetchLogs { namespace: ns, pod: n, container: c, tail_lines: t },
                    );
                    cmds
                },
            },
            Intent::Config(a) => match a {
                ConfigAction::UpdateConfigMap(ns, n, d) => {
                    let mut cmds: Vec<Command> = Vec::new();
                    cmds.push(
                        Command::Mutate(
                            MutateRequest::UpdateConfigMap { namespace: ns, name: n, data: d },
                        ),
                    );
                    cmds
                },
            },
            Intent::Job(a) => match a {
                JobAction::Delete(ns, n) => {
                    let mut cmds: Vec<Command> = Vec::new();
                    cmds.push(Command::Mutate(MutateRequest::DeleteJob { namespace: ns, name: n }));
                    cmds
                },
            },
            Intent::CronJob(a) => match a {
                CronJobAction::Trigger(ns, n) => {
                    let mut cmds: Vec<Command> = Vec::new();
                    cmds.push(
                        Command::Mutate(MutateRequest::TriggerCronJob { namespace: ns, name: n }),
                    );
                    cmds
                },
                CronJobAction::Suspend(ns, n, s) => {
                    let mut cmds: Vec<Command> = Vec::new();
                    cmds.push(
                        Command::Mutate(
                            MutateRequest::SuspendCronJob { namespace: ns, name: n, suspend: s },
                        ),
                    );
                    cmds
                },
                CronJobAction::GetHistory(ns, n) => {
                    let mut cmds: Vec<Command> = Vec::new();
                    cmds.push(Command::FetchHistory { namespace: ns, name: n });
                    cmds
                },
            },
        }
    }
}

/// A successful mutation triggers exactly one refresh of the current
/// view's kinds, with the current namespace filter, and no refresh of
/// any kind belonging to another view: those snapshots are untouched.
pub proof fn lemma_mutate_success_refreshes_current_view(
    pre: SyncCore,
    msg: String,
    now: u64,
    post: SyncCore,
    cmds: Seq<Command>,
)
    requires
        spec_step(pre, Outcome::ActionCompleted(Ok(msg)), now, post, cmds),
    ensures
        cmds == spec_fetch_commands(pre.current_view, pre.selected_namespace),
        cmds.len() == spec_view_kinds(pre.current_view).len(),
        forall|i: int|
            0 <= i < cmds.len() ==> (#[trigger] cmds[i] matches Command::Fetch {
                kind,
                namespace,
            } && spec_kind_in_view(pre.current_view, kind) && namespace
                == pre.selected_namespace),
        forall|k: Kind|
            !spec_kind_in_view(pre.current_view, k) ==> #[trigger] spec_kind_unchanged(
                pre,
                post,
                k,
            ),
        forall|k: Kind|
            spec_kind_in_view(pre.current_view, k) ==> #[trigger] spec_kind_loading(post, k),
{
    let v = pre.current_view;
    let ks = spec_view_kinds(v);
    assert forall|i: int| 0 <= i < cmds.len() implies (#[trigger] cmds[i] matches Command::Fetch {
        kind,
        namespace,
    } && spec_kind_in_view(v, kind) && namespace == pre.selected_namespace) by {
        assert(cmds[i] == Command::Fetch { kind: ks[i], namespace: pre.selected_namespace });
        lemma_kind_in_view_listed(v, ks[i]);
        assert(ks.contains(ks[i]));
    }
    assert forall|k: Kind| !spec_kind_in_view(v, k) implies #[trigger] spec_kind_unchanged(
        pre,
        post,
        k,
    ) by {}
    assert forall|k: Kind| spec_kind_in_view(v, k) implies #[trigger] spec_kind_loading(
        post,
        k,
    ) by {}
}

} // verus!
