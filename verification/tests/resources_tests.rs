use kubedash::resources::{
    delete_deployment_summary, delete_job_summary, delete_pod_summary, format_age,
    get_cronjob_history, job_status_of, list_cronjobs, list_deployments, list_ingresses,
    list_jobs, list_pods, list_secrets, list_services, restart_summary, scale_summary,
    secret_info_of, suspend_summary, trigger_cronjob, trigger_summary, update_configmap_summary,
    configmap_info_of, ConfigMapInfo, JobStatus, KeyValue, RawConfigMap, RawContainerSpec,
    RawContainerState, RawContainerStatus, RawCronJob, RawDeployment, RawIngress, RawIngressRule,
    RawJob, RawLbIngress, RawMeta, RawPod, RawSecret, RawService, RawServicePort, TemplateMeta,
    TriggerSource,
};

fn meta(name: &str, ns: &str, created: Option<i64>) -> RawMeta {
    RawMeta {
        name: Some(name.to_string()),
        namespace: Some(ns.to_string()),
        creation_ts: created,
    }
}

#[test]
fn age_unknown_without_creation_time() {
    assert_eq!(format_age(&None, 1000), "Unknown");
}

#[test]
fn age_picks_largest_unit() {
    assert_eq!(format_age(&Some(0), 2 * 86400 + 3600), "2d");
    assert_eq!(format_age(&Some(0), 7200), "2h");
    assert_eq!(format_age(&Some(0), 180), "3m");
    assert_eq!(format_age(&Some(0), 59), "59s");
}

#[test]
fn age_of_future_creation_is_negative_seconds() {
    assert_eq!(format_age(&Some(100), 90), "-10s");
}

#[test]
fn job_status_priority() {
    assert_eq!(job_status_of(1, 0, 0), JobStatus::Succeeded);
    assert_eq!(job_status_of(1, 5, 5), JobStatus::Succeeded);
    assert_eq!(job_status_of(0, 2, 5), JobStatus::Failed);
    assert_eq!(job_status_of(0, 0, 3), JobStatus::Running);
    assert_eq!(job_status_of(0, 0, 0), JobStatus::Pending);
}

#[test]
fn job_row_with_success_is_succeeded_not_running() {
    // a finished job still listing an active pod must read Succeeded
    let raw = RawJob {
        meta: meta("backup", "default", Some(0)),
        succeeded: Some(1),
        failed: None,
        active: Some(1),
        completions: Some(1),
        start_ts: Some(10),
        completion_ts: Some(40),
        owner_names: None,
    };
    let rows = list_jobs(&vec![raw], 100);
    assert_eq!(rows.len(), 1);
    assert_eq!(rows[0].status, JobStatus::Succeeded);
    assert_ne!(rows[0].status, JobStatus::Running);
    assert_eq!(rows[0].completions, "1/1");
    assert_eq!(rows[0].duration, "30s");
}

#[test]
fn job_duration_open_ended_and_missing() {
    let running = RawJob {
        meta: meta("r", "ns", Some(0)),
        succeeded: None,
        failed: None,
        active: Some(1),
        completions: None,
        start_ts: Some(50),
        completion_ts: None,
        owner_names: None,
    };
    let never_started = RawJob {
        meta: meta("p", "ns", Some(0)),
        succeeded: None,
        failed: None,
        active: None,
        completions: None,
        start_ts: None,
        completion_ts: None,
        owner_names: None,
    };
    let rows = list_jobs(&vec![running, never_started], 80);
    assert_eq!(rows[0].duration, "30s");
    assert_eq!(rows[0].completions, "0/1");
    assert_eq!(rows[1].duration, "-");
    assert_eq!(rows[1].status, JobStatus::Pending);
}

#[test]
fn deployment_row_fields() {
    let raw = RawDeployment {
        meta: meta("web", "prod", Some(0)),
        replicas: Some(3),
        available: Some(2),
        ready: Some(2),
        updated: None,
        images: Some(vec![Some("nginx:1.25".to_string()), None]),
        labels: Some(vec![KeyValue { key: "app".to_string(), value: "web".to_string() }]),
    };
    let rows = list_deployments(&vec![raw], 3600);
    assert_eq!(rows.len(), 1);
    let d = &rows[0];
    assert_eq!(d.name, "web");
    assert_eq!(d.namespace, "prod");
    assert_eq!(d.replicas, 3);
    assert_eq!(d.available, 2);
    assert_eq!(d.ready, 2);
    assert_eq!(d.updated, 0);
    assert_eq!(d.age, "1h");
    assert_eq!(d.images, vec!["nginx:1.25".to_string(), String::new()]);
    assert_eq!(d.labels.len(), 1);
    assert_eq!(d.labels[0].key, "app");
}

#[test]
fn pod_row_matches_statuses_by_name() {
    let raw = RawPod {
        meta: meta("api-1", "prod", Some(0)),
        phase: Some("Running".to_string()),
        node_name: Some("node-a".to_string()),
        pod_ip: Some("10.0.0.9".to_string()),
        containers: Some(vec![
            RawContainerSpec { name: "app".to_string(), image: Some("img:1".to_string()) },
            RawContainerSpec { name: "sidecar".to_string(), image: None },
        ]),
        container_statuses: Some(vec![
            RawContainerStatus {
                name: "sidecar".to_string(),
                ready: false,
                restart_count: 2,
                state: Some(RawContainerState {
                    running: false,
                    waiting: Some(Some("CrashLoopBackOff".to_string())),
                    terminated: None,
                }),
            },
            RawContainerStatus {
                name: "app".to_string(),
                ready: true,
                restart_count: 1,
                state: Some(RawContainerState { running: true, waiting: None, terminated: None }),
            },
        ]),
    };
    let rows = list_pods(&vec![raw], 60);
    let p = &rows[0];
    assert_eq!(p.name, "api-1");
    assert_eq!(p.status, "Running");
    assert_eq!(p.ready, "1/2");
    assert_eq!(p.restarts, 3);
    assert_eq!(p.age, "1m");
    assert_eq!(p.node, "node-a");
    assert_eq!(p.ip, "10.0.0.9");
    assert_eq!(p.containers.len(), 2);
    assert_eq!(p.containers[0].name, "app");
    assert_eq!(p.containers[0].state, "Running");
    assert!(p.containers[0].ready);
    assert_eq!(p.containers[1].state, "CrashLoopBackOff");
    assert_eq!(p.containers[1].restarts, 2);
}

#[test]
fn pod_container_states_without_status() {
    let raw = RawPod {
        meta: meta("solo", "ns", None),
        phase: None,
        node_name: None,
        pod_ip: None,
        containers: Some(vec![RawContainerSpec { name: "only".to_string(), image: None }]),
        container_statuses: None,
    };
    let rows = list_pods(&vec![raw], 0);
    let p = &rows[0];
    assert_eq!(p.status, "Unknown");
    assert_eq!(p.ready, "0/1");
    assert_eq!(p.age, "Unknown");
    assert_eq!(p.containers[0].state, "Unknown");
    assert!(!p.containers[0].ready);
}

#[test]
fn pod_terminated_reason_defaults() {
    let raw = RawPod {
        meta: meta("t", "ns", None),
        phase: Some("Failed".to_string()),
        node_name: None,
        pod_ip: None,
        containers: Some(vec![RawContainerSpec { name: "c".to_string(), image: None }]),
        container_statuses: Some(vec![RawContainerStatus {
            name: "c".to_string(),
            ready: false,
            restart_count: 0,
            state: Some(RawContainerState {
                running: false,
                waiting: None,
                terminated: Some(None),
            }),
        }]),
    };
    let rows = list_pods(&vec![raw], 0);
    assert_eq!(rows[0].containers[0].state, "Terminated");
}

#[test]
fn service_ports_and_external_ips() {
    let raw = RawService {
        meta: meta("svc", "ns", Some(0)),
        service_type: None,
        cluster_ip: Some("10.1.2.3".to_string()),
        external_ips: Some(vec!["1.1.1.1".to_string(), "2.2.2.2".to_string()]),
        lb_ingress: None,
        ports: Some(vec![
            RawServicePort { port: 80, node_port: None, protocol: None },
            RawServicePort { port: 443, node_port: Some(30443), protocol: Some("TCP".to_string()) },
        ]),
        selector: None,
    };
    let rows = list_services(&vec![raw], 0);
    let s = &rows[0];
    assert_eq!(s.service_type, "ClusterIP");
    assert_eq!(s.cluster_ip, "10.1.2.3");
    assert_eq!(s.external_ip, "1.1.1.1, 2.2.2.2");
    assert_eq!(s.ports, vec!["80/TCP".to_string(), "443:30443/TCP".to_string()]);
}

#[test]
fn service_external_ip_from_load_balancer() {
    let raw = RawService {
        meta: meta("lb", "ns", None),
        service_type: Some("LoadBalancer".to_string()),
        cluster_ip: None,
        external_ips: None,
        lb_ingress: Some(vec![
            RawLbIngress { ip: Some("3.3.3.3".to_string()), hostname: None },
            RawLbIngress { ip: None, hostname: Some("lb.example".to_string()) },
            RawLbIngress { ip: None, hostname: None },
        ]),
        ports: None,
        selector: None,
    };
    let rows = list_services(&vec![raw], 0);
    assert_eq!(rows[0].external_ip, "3.3.3.3, lb.example");
}

#[test]
fn service_external_ip_declared_but_empty() {
    // a declared, empty address list joins to empty text, not to <none>
    let raw = RawService {
        meta: meta("edge", "ns", None),
        service_type: None,
        cluster_ip: None,
        external_ips: Some(vec![]),
        lb_ingress: None,
        ports: Some(vec![]),
        selector: None,
    };
    let rows = list_services(&vec![raw], 0);
    assert_eq!(rows[0].external_ip, "");
    assert!(rows[0].ports.is_empty());
}

#[test]
fn service_external_ip_none() {
    let raw = RawService {
        meta: meta("plain", "ns", None),
        service_type: None,
        cluster_ip: None,
        external_ips: None,
        lb_ingress: None,
        ports: None,
        selector: None,
    };
    let rows = list_services(&vec![raw], 0);
    assert_eq!(rows[0].external_ip, "<none>");
}

#[test]
fn ingress_hosts_and_paths() {
    let raw = RawIngress {
        meta: meta("ing", "ns", None),
        rules: Some(vec![
            RawIngressRule {
                host: Some("a.example".to_string()),
                http_paths: Some(vec![Some("/api".to_string()), None]),
            },
            RawIngressRule { host: None, http_paths: Some(vec![Some("/web".to_string())]) },
        ]),
    };
    let rows = list_ingresses(&vec![raw], 0);
    assert_eq!(rows[0].hosts, vec!["a.example".to_string()]);
    assert_eq!(
        rows[0].paths,
        vec!["/api".to_string(), "/".to_string(), "/web".to_string()]
    );
}

#[test]
fn configmap_counts_data() {
    let raw = RawConfigMap {
        meta: meta("cm", "ns", None),
        data: Some(vec![
            KeyValue { key: "a".to_string(), value: "1".to_string() },
            KeyValue { key: "b".to_string(), value: "2".to_string() },
        ]),
    };
    let info: ConfigMapInfo = configmap_info_of(&raw, 0);
    assert_eq!(info.data_count, 2);
    assert_eq!(info.data[1].value, "2");
}

#[test]
fn secret_defaults_and_keys() {
    let raw = RawSecret {
        meta: meta("sec", "ns", None),
        secret_type: None,
        data_keys: Some(vec!["token".to_string()]),
    };
    let info = secret_info_of(&raw, 0);
    assert_eq!(info.secret_type, "Opaque");
    assert_eq!(info.data_count, 1);
    assert_eq!(info.data_keys, vec!["token".to_string()]);
    let rows = list_secrets(&vec![RawSecret {
        meta: meta("e", "ns", None),
        secret_type: Some("kubernetes.io/tls".to_string()),
        data_keys: None,
    }], 0);
    assert_eq!(rows[0].secret_type, "kubernetes.io/tls");
    assert_eq!(rows[0].data_count, 0);
}

#[test]
fn cronjob_row_fields() {
    let raw = RawCronJob {
        meta: meta("nightly", "batch", Some(0)),
        schedule: Some("0 2 * * *".to_string()),
        suspend: None,
        active_count: Some(2),
        last_schedule_ts: Some(3000),
    };
    let rows = list_cronjobs(&vec![raw], 3600);
    let c = &rows[0];
    assert_eq!(c.name, "nightly");
    assert_eq!(c.schedule, "0 2 * * *");
    assert!(!c.suspend);
    assert_eq!(c.active, 2);
    assert_eq!(c.last_schedule.as_deref(), Some("10m"));
    assert_eq!(c.age, "1h");
}

#[test]
fn trigger_builds_named_run_with_owner_reference() {
    let source = TriggerSource {
        uid: Some("uid-123".to_string()),
        template: Some(TemplateMeta {
            labels: Some(vec![KeyValue { key: "app".to_string(), value: "nightly".to_string() }]),
            annotations: None,
        }),
    };
    let ns = "batch".to_string();
    let name = "nightly".to_string();
    let plan = trigger_cronjob(&ns, &name, &source, 1700000000).unwrap();
    assert_eq!(plan.job_name, "nightly-manual-1700000000");
    assert_eq!(plan.namespace, "batch");
    assert_eq!(plan.labels.len(), 1);
    assert!(plan.annotations.is_empty());
    assert_eq!(plan.owner.api_version, "batch/v1");
    assert_eq!(plan.owner.kind, "CronJob");
    assert_eq!(plan.owner.name, "nightly");
    assert_eq!(plan.owner.uid, "uid-123");
    assert!(plan.owner.controller);
    assert!(plan.owner.block_owner_deletion);
}

#[test]
fn trigger_without_template_fails() {
    let source = TriggerSource { uid: None, template: None };
    let ns = "batch".to_string();
    let name = "nightly".to_string();
    let err = trigger_cronjob(&ns, &name, &source, 0).unwrap_err();
    assert_eq!(err.message, "CronJob has no job template");
}

#[test]
fn history_filters_by_owner() {
    let mk = |name: &str, owner: Option<&str>| RawJob {
        meta: meta(name, "batch", Some(0)),
        succeeded: Some(1),
        failed: None,
        active: None,
        completions: Some(1),
        start_ts: None,
        completion_ts: None,
        owner_names: owner.map(|o| vec![o.to_string()]),
    };
    let jobs = list_jobs(
        &vec![
            mk("nightly-manual-1700000000", Some("nightly")),
            mk("weekly-1", Some("weekly")),
            mk("orphan", None),
            mk("nightly-2", Some("nightly")),
        ],
        0,
    );
    let name = "nightly".to_string();
    let history = get_cronjob_history(&jobs, &name);
    let names: Vec<&str> = history.iter().map(|j| j.name.as_str()).collect();
    assert_eq!(names, vec!["nightly-manual-1700000000", "nightly-2"]);
}

#[test]
fn summaries_exact_text() {
    let n = "web".to_string();
    assert_eq!(scale_summary(&n, 5), "Scaled web to 5 replicas");
    assert_eq!(restart_summary(&n), "Restarted deployment web");
    assert_eq!(delete_deployment_summary(&n), "Deleted deployment web");
    assert_eq!(delete_pod_summary(&n), "Deleted pod web");
    assert_eq!(update_configmap_summary(&n), "Updated configmap web");
    assert_eq!(delete_job_summary(&n), "Deleted job web");
    let j = "nightly-manual-5".to_string();
    let c = "nightly".to_string();
    assert_eq!(trigger_summary(&j, &c), "Created job nightly-manual-5 from cronjob nightly");
    assert_eq!(suspend_summary(&c, true), "Suspended cronjob nightly");
    assert_eq!(suspend_summary(&c, false), "Resumed cronjob nightly");
}
