use kubedash::resources::{JobInfo, JobStatus, PodInfo};
use kubedash::views::{
    name_matches, pod_matches, status_tone, ConfigTab, ConfigView, CronJobsView,
    DeploymentsView, JobsView, PodsView, ServiceTab, ServicesView, StatusTone,
};

fn pod(name: &str, ns: &str, status: &str) -> PodInfo {
    PodInfo {
        name: name.to_string(),
        namespace: ns.to_string(),
        status: status.to_string(),
        ready: "1/1".to_string(),
        restarts: 0,
        age: "1m".to_string(),
        node: String::new(),
        ip: String::new(),
        containers: vec![],
    }
}

#[test]
fn status_tones() {
    assert_eq!(status_tone("Running"), StatusTone::Positive);
    assert_eq!(status_tone("succeeded"), StatusTone::Positive);
    assert_eq!(status_tone("AVAILABLE"), StatusTone::Positive);
    assert_eq!(status_tone("Pending"), StatusTone::Caution);
    assert_eq!(status_tone("creating"), StatusTone::Caution);
    assert_eq!(status_tone("Failed"), StatusTone::Negative);
    assert_eq!(status_tone("CrashLoopBackOff"), StatusTone::Negative);
    assert_eq!(status_tone("ImagePullBackOff"), StatusTone::Negative);
    assert_eq!(status_tone("Terminating"), StatusTone::Neutral);
    assert_eq!(status_tone("whatever"), StatusTone::Neutral);
}

#[test]
fn empty_filter_matches_everything() {
    let f = String::new();
    assert!(name_matches(&"web".to_string(), &"prod".to_string(), &f));
}

#[test]
fn filter_is_case_insensitive_over_name_and_namespace() {
    let name = "Web-Frontend".to_string();
    let ns = "Production".to_string();
    assert!(name_matches(&name, &ns, &"front".to_string()));
    assert!(name_matches(&name, &ns, &"PROD".to_string()));
    assert!(!name_matches(&name, &ns, &"batch".to_string()));
}

#[test]
fn pod_filter_also_searches_status() {
    let p = pod("api-1", "prod", "CrashLoopBackOff");
    assert!(pod_matches(&p, &"crashloop".to_string()));
    assert!(pod_matches(&p, &"api".to_string()));
    assert!(!pod_matches(&p, &"running".to_string()));
}

#[test]
fn view_defaults() {
    let d = DeploymentsView::default();
    assert_eq!(d.search_filter, "");
    assert_eq!(d.scale_replicas, 1);
    assert!(!d.show_scale_dialog);
    assert!(!d.show_delete_dialog);
    let p = PodsView::default();
    assert_eq!(p.tail_lines, 100);
    assert!(!p.logs_loading);
    assert!(p.selected_container.is_none());
    let s = ServicesView::default();
    assert_eq!(s.active_tab, ServiceTab::Services);
    let c = ConfigView::default();
    assert_eq!(c.active_tab, ConfigTab::ConfigMaps);
    assert!(c.edit_data.is_empty());
    let j = JobsView::default();
    assert!(j.selected_job.is_none());
    let cj = CronJobsView::default();
    assert!(cj.history_jobs.is_empty());
    assert!(!cj.history_loading);
}

#[test]
fn set_logs_updates_only_the_side_channel() {
    let mut v = PodsView::default();
    v.set_logs_loading();
    assert!(v.logs_loading);
    v.set_logs("log text".to_string());
    assert!(!v.logs_loading);
    assert_eq!(v.logs_content, "log text");
    assert_eq!(v.tail_lines, 100);
}

#[test]
fn set_history_stores_jobs_and_stops_loading() {
    let mut v = CronJobsView::default();
    v.history_loading = true;
    let job = JobInfo {
        name: "run-1".to_string(),
        namespace: "batch".to_string(),
        completions: "1/1".to_string(),
        duration: "5s".to_string(),
        age: "2m".to_string(),
        status: JobStatus::Succeeded,
        owner: Some("nightly".to_string()),
    };
    v.set_history(vec![job]);
    assert!(!v.history_loading);
    assert_eq!(v.history_jobs.len(), 1);
    assert_eq!(v.history_jobs[0].name, "run-1");
    v.history_loading = true;
    v.set_history(vec![]);
    assert!(!v.history_loading);
    assert!(v.history_jobs.is_empty());
}
