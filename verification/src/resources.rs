//! The resource gateway's pure half: flattening raw resource records into
//! display-ready rows, deriving ages, statuses and aggregate counts, and
//! planning mutations. The network half hands these functions plain values
//! taken from the control plane's typed records.

use vstd::prelude::*;
use vstd::string::*;
use crate::text::{spec_dec_int, spec_dec_nat, i32_to_string, i64_to_string, u64_to_string};

verus! {

/// Timestamps the library computes with, in whole seconds. The bound is a
/// machine limit so that differences of two timestamps fit in `i64`.
pub open spec fn ts_ok(t: int) -> bool {
    -0x1000_0000_0000_0000 <= t <= 0x1000_0000_0000_0000
}

/// An optional timestamp within [`ts_ok`] bounds.
pub open spec fn ts_ok_opt(o: Option<i64>) -> bool {
    match o {
        Some(t) => ts_ok(t as int),
        None => true,
    }
}

/// A failed fetch of one resource kind; non-fatal, surfaced in place of
/// the kind's table while the prior snapshot is retained.
#[derive(Clone, Debug)]
pub struct FetchError {
    pub message: String,
}

/// A failed mutation; surfaced as a transient notification, the operation
/// is abandoned.
#[derive(Clone, Debug)]
pub struct MutateError {
    pub message: String,
}

/// One key/value pair of a label map, a selector or configuration data,
/// in the order the record listed it.
#[derive(Clone, Debug, PartialEq)]
pub struct KeyValue {
    pub key: String,
    pub value: String,
}

/// Abstract value of a [`KeyValue`].
pub ghost struct KeyValueV {
    pub key: Seq<char>,
    pub value: Seq<char>,
}

impl DeepView for KeyValue {
    type V = KeyValueV;

    open spec fn deep_view(&self) -> KeyValueV {
        KeyValueV { key: self.key@, value: self.value@ }
    }
}

/// The metadata every raw record carries: a possibly-missing name and
/// namespace, and the creation time in whole seconds.
#[derive(Clone, Debug)]
pub struct RawMeta {
    pub name: Option<String>,
    pub namespace: Option<String>,
    pub creation_ts: Option<i64>,
}

/// The text an absent optional string reads as: empty.
pub open spec fn spec_or_empty(o: Option<String>) -> Seq<char> {
    match o {
        Some(s) => s@,
        None => Seq::empty(),
    }
}

/// The text an absent optional string reads as: the given fallback.
pub open spec fn spec_or_else(o: Option<String>, alt: Seq<char>) -> Seq<char> {
    match o {
        Some(s) => s@,
        None => alt,
    }
}

/// An absent counter reads as the given fallback value.
pub open spec fn spec_or_int(o: Option<i32>, alt: int) -> int {
    match o {
        Some(v) => v as int,
        None => alt,
    }
}

fn clone_or_empty(o: &Option<String>) -> (r: String)
    ensures
        r@ == spec_or_empty(*o),
{
    match o {
        Some(s) => s.clone(),
        None => String::new(),
    }
}

fn clone_or_else(o: &Option<String>, alt: &str) -> (r: String)
    ensures
        r@ == spec_or_else(*o, alt@),
{
    match o {
        Some(s) => s.clone(),
        None => String::from_str(alt),
    }
}

fn or_int(o: &Option<i32>, alt: i32) -> (r: i32)
    ensures
        r as int == spec_or_int(*o, alt as int),
{
    match o {
        Some(v) => *v,
        None => alt,
    }
}

fn clone_strings(v: &Vec<String>) -> (r: Vec<String>)
    ensures
        r.deep_view() == v.deep_view(),
{
    let mut out: Vec<String> = Vec::new();
    let mut i: usize = 0;
    while i < v.len()
        invariant
            i <= v@.len(),
            out@.len() == i,
            forall|j: int| 0 <= j < i ==> out.deep_view()[j] == v.deep_view()[j],
        decreases v@.len() - i,
    {
        out.push(v[i].clone());
        i = i + 1;
    }
    proof {
        assert(out.deep_view() =~= v.deep_view());
    }
    out
}

fn clone_kvs(v: &Vec<KeyValue>) -> (r: Vec<KeyValue>)
    ensures
        r.deep_view() == v.deep_view(),
{
    let mut out: Vec<KeyValue> = Vec::new();
    let mut i: usize = 0;
    while i < v.len()
        invariant
            i <= v@.len(),
            out@.len() == i,
            forall|j: int| 0 <= j < i ==> out.deep_view()[j] == v.deep_view()[j],
        decreases v@.len() - i,
    {
        out.push(KeyValue { key: v[i].key.clone(), value: v[i].value.clone() });
        i = i + 1;
    }
    proof {
        assert(out.deep_view() =~= v.deep_view());
    }
    out
}

fn clone_kvs_opt(v: &Option<Vec<KeyValue>>) -> (r: Vec<KeyValue>)
    ensures
        r.deep_view() == match *v {
            Some(l) => l.deep_view(),
            None => Seq::<KeyValueV>::empty(),
        },
{
    match v {
        Some(l) => clone_kvs(l),
        None => {
            let out: Vec<KeyValue> = Vec::new();
            proof {
                assert(out.deep_view() =~= Seq::<KeyValueV>::empty());
            }
            out
        },
    }
}

/// The age text derived from a creation time relative to now: the largest
/// whole unit among days, hours, minutes and seconds, or `Unknown` when
/// the record carries no creation time.
pub open spec fn spec_age(creation_ts: Option<i64>, now: int) -> Seq<char> {
    match creation_ts {
        None => "Unknown"@,
        Some(ts) => {
            let s = now - ts;
            if s >= 86400 {
                spec_dec_nat((s / 86400) as nat) + "d"@
            } else if s >= 3600 {
                spec_dec_nat((s / 3600) as nat) + "h"@
            } else if s >= 60 {
                spec_dec_nat((s / 60) as nat) + "m"@
            } else {
                spec_dec_int(s) + "s"@
            }
        },
    }
}

/// Renders the age of a record created at `creation_ts`, as of `now`.
pub fn format_age(creation_ts: &Option<i64>, now: i64) -> (r: String)
    requires
        ts_ok(now as int),
        ts_ok_opt(*creation_ts),
    ensures
        r@ == spec_age(*creation_ts, now as int),
{
    match creation_ts {
        None => String::from_str("Unknown"),
        Some(ts) => {
            let s: i64 = now - *ts;
            if s >= 86400 {
                let mut r: String = u64_to_string((s as u64) / 86400);
                r.append("d");
                r
            } else if s >= 3600 {
                let mut r: String = u64_to_string((s as u64) / 3600);
                r.append("h");
                r
            } else if s >= 60 {
                let mut r: String = u64_to_string((s as u64) / 60);
                r.append("m");
                r
            } else {
                let mut r: String = i64_to_string(s);
                r.append("s");
                r
            }
        },
    }
}

/// `a/b`, both rendered in decimal.
pub open spec fn spec_fraction(a: int, b: int) -> Seq<char> {
    spec_dec_int(a) + "/"@ + spec_dec_int(b)
}

fn fraction_string(a: i64, b: i64) -> (r: String)
    ensures
        r@ == spec_fraction(a as int, b as int),
{
    let mut r: String = i64_to_string(a);
    r.append("/");
    let tail: String = i64_to_string(b);
    r.append(tail.as_str());
    r
}

fn fraction_usize(a: usize, b: usize) -> (r: String)
    ensures
        r@ == spec_fraction(a as int, b as int),
{
    let mut r: String = u64_to_string(a as u64);
    r.append("/");
    let tail: String = u64_to_string(b as u64);
    r.append(tail.as_str());
    r
}

// ---------------------------------------------------------------------
// Deployments
// ---------------------------------------------------------------------

/// A display-ready deployment row.
#[derive(Clone, Debug)]
pub struct DeploymentInfo {
    pub name: String,
    pub namespace: String,
    pub replicas: i32,
    pub available: i32,
    pub ready: i32,
    pub updated: i32,
    pub age: String,
    pub images: Vec<String>,
    pub labels: Vec<KeyValue>,
}

/// A raw deployment record: what the projection reads from the control
/// plane's typed object. `images` is absent when the record has no pod
/// template spec; each image may itself be absent.
#[derive(Clone, Debug)]
pub struct RawDeployment {
    pub meta: RawMeta,
    pub replicas: Option<i32>,
    pub available: Option<i32>,
    pub ready: Option<i32>,
    pub updated: Option<i32>,
    pub images: Option<Vec<Option<String>>>,
    pub labels: Option<Vec<KeyValue>>,
}

/// The image list a raw deployment displays: absent images read as empty
/// strings, an absent template as no images at all.
pub open spec fn spec_images(o: Option<Vec<Option<String>>>) -> Seq<Seq<char>> {
    match o {
        Some(v) => v@.map_values(|im: Option<String>| spec_or_empty(im)),
        None => Seq::empty(),
    }
}

/// How one display row relates to the raw deployment it was derived from.
pub open spec fn deployment_ok(raw: RawDeployment, now: int, info: DeploymentInfo) -> bool {
    &&& info.name@ == spec_or_empty(raw.meta.name)
    &&& info.namespace@ == spec_or_empty(raw.meta.namespace)
    &&& info.replicas as int == spec_or_int(raw.replicas, 0)
    &&& info.available as int == spec_or_int(raw.available, 0)
    &&& info.ready as int == spec_or_int(raw.ready, 0)
    &&& info.updated as int == spec_or_int(raw.updated, 0)
    &&& info.age@ == spec_age(raw.meta.creation_ts, now)
    &&& info.images.deep_view() == spec_images(raw.images)
    &&& info.labels.deep_view() == match raw.labels {
        Some(l) => l.deep_view(),
        None => Seq::<KeyValueV>::empty(),
    }
}

/// Flattens one raw deployment into its display row.
pub fn deployment_info_of(raw: &RawDeployment, now: i64) -> (info: DeploymentInfo)
    requires
        ts_ok(now as int),
        ts_ok_opt(raw.meta.creation_ts),
    ensures
        deployment_ok(*raw, now as int, info),
{
    let images: Vec<String> = match &raw.images {
        Some(v) => {
            let mut out: Vec<String> = Vec::new();
            let mut i: usize = 0;
            while i < v.len()
                invariant
                    i <= v@.len(),
                    out@.len() == i,
                    forall|j: int| 0 <= j < i ==> (#[trigger] out@[j])@ == spec_or_empty(v@[j]),
                decreases v@.len() - i,
            {
                out.push(clone_or_empty(&v[i]));
                i = i + 1;
            }
            proof {
                assert(out.deep_view() =~= v@.map_values(|im: Option<String>| spec_or_empty(im)));
            }
            out
        },
        None => {
            let out: Vec<String> = Vec::new();
            proof {
                assert(out.deep_view() =~= Seq::<Seq<char>>::empty());
            }
            out
        },
    };
    DeploymentInfo {
        name: clone_or_empty(&raw.meta.name),
        namespace: clone_or_empty(&raw.meta.namespace),
        replicas: or_int(&raw.replicas, 0),
        available: or_int(&raw.available, 0),
        ready: or_int(&raw.ready, 0),
        updated: or_int(&raw.updated, 0),
        age: format_age(&raw.meta.creation_ts, now),
        images,
        labels: clone_kvs_opt(&raw.labels),
    }
}

/// Flattens a raw deployment listing into display rows, in order.
pub fn list_deployments(items: &Vec<RawDeployment>, now: i64) -> (r: Vec<DeploymentInfo>)
    requires
        ts_ok(now as int),
        forall|i: int| 0 <= i < items@.len() ==> ts_ok_opt(#[trigger] items@[i].meta.creation_ts),
    ensures
        r@.len() == items@.len(),
        forall|i: int| 0 <= i < items@.len() ==> deployment_ok(items@[i], now as int, #[trigger] r@[i]),
{
    let mut out: Vec<DeploymentInfo> = Vec::new();
    let mut i: usize = 0;
    while i < items.len()
        invariant
            i <= items@.len(),
            out@.len() == i,
            ts_ok(now as int),
            forall|k: int| 0 <= k < items@.len() ==> ts_ok_opt(#[trigger] items@[k].meta.creation_ts),
            forall|j: int| 0 <= j < i ==> deployment_ok(items@[j], now as int, #[trigger] out@[j]),
        decreases items@.len() - i,
    {
        out.push(deployment_info_of(&items[i], now));
        i = i + 1;
    }
    out
}

// ---------------------------------------------------------------------
// Pods
// ---------------------------------------------------------------------

/// A display-ready pod row.
#[derive(Clone, Debug)]
pub struct PodInfo {
    pub name: String,
    pub namespace: String,
    pub status: String,
    pub ready: String,
    pub restarts: i32,
    pub age: String,
    pub node: String,
    pub ip: String,
    pub containers: Vec<ContainerInfo>,
}

/// One container of a pod row.
#[derive(Clone, Debug)]
pub struct ContainerInfo {
    pub name: String,
    pub image: String,
    pub ready: bool,
    pub restarts: i32,
    pub state: String,
}

/// A declared container of a raw pod spec.
#[derive(Clone, Debug)]
pub struct RawContainerSpec {
    pub name: String,
    pub image: Option<String>,
}

/// The reported runtime state of one container: running, or waiting or
/// terminated with an optional reason. The outer option of `waiting` and
/// `terminated` is whether the section is present at all.
#[derive(Clone, Debug)]
pub struct RawContainerState {
    pub running: bool,
    pub waiting: Option<Option<String>>,
    pub terminated: Option<Option<String>>,
}

/// The reported status of one container, matched to the spec by name.
#[derive(Clone, Debug)]
pub struct RawContainerStatus {
    pub name: String,
    pub ready: bool,
    pub restart_count: i32,
    pub state: Option<RawContainerState>,
}

/// A raw pod record.
#[derive(Clone, Debug)]
pub struct RawPod {
    pub meta: RawMeta,
    pub phase: Option<String>,
    pub node_name: Option<String>,
    pub pod_ip: Option<String>,
    pub containers: Option<Vec<RawContainerSpec>>,
    pub container_statuses: Option<Vec<RawContainerStatus>>,
}

/// The first reported status carrying this container name, if any.
pub open spec fn spec_find_status(s: Seq<RawContainerStatus>, name: Seq<char>) -> Option<
    RawContainerStatus,
>
    decreases s.len(),
{
    if s.len() == 0 {
        None
    } else if s[0].name@ == name {
        Some(s[0])
    } else {
        spec_find_status(s.drop_first(), name)
    }
}

fn find_status<'a>(s: &'a Vec<RawContainerStatus>, name: &String) -> (r: Option<
    &'a RawContainerStatus,
>)
    ensures
        match r {
            Some(st) => spec_find_status(s@, name@) == Some(*st),
            None => spec_find_status(s@, name@) is None,
        },
{
    let mut i: usize = 0;
    proof {
        assert(s@.skip(0) =~= s@);
    }
    while i < s.len()
        invariant
            i <= s@.len(),
            spec_find_status(s@, name@) == spec_find_status(s@.skip(i as int), name@),
        decreases s@.len() - i,
    {
        let ghost pre = s@.skip(i as int);
        if s[i].name == *name {
            proof {
                assert(pre[0] == s@[i as int]);
            }
            return Some(&s[i]);
        }
        i = i + 1;
        proof {
            assert(pre[0] == s@[i - 1]);
            assert(pre.drop_first() =~= s@.skip(i as int));
        }
    }
    proof {
        assert(s@.skip(i as int) =~= Seq::<RawContainerStatus>::empty());
    }
    None
}

/// The display text of a container state: running first, then a waiting
/// reason, then a terminated reason, otherwise unknown.
pub open spec fn spec_container_state(st: Option<RawContainerState>) -> Seq<char> {
    match st {
        None => "Unknown"@,
        Some(cs) => {
            if cs.running {
                "Running"@
            } else {
                match cs.waiting {
                    Some(reason) => spec_or_else(reason, "Waiting"@),
                    None => match cs.terminated {
                        Some(reason) => spec_or_else(reason, "Terminated"@),
                        None => "Unknown"@,
                    },
                }
            }
        },
    }
}

fn container_state_string(st: &Option<RawContainerState>) -> (r: String)
    ensures
        r@ == spec_container_state(*st),
{
    match st {
        None => String::from_str("Unknown"),
        Some(cs) => {
            if cs.running {
                String::from_str("Running")
            } else {
                match &cs.waiting {
                    Some(reason) => clone_or_else(reason, "Waiting"),
                    None => match &cs.terminated {
                        Some(reason) => clone_or_else(reason, "Terminated"),
                        None => String::from_str("Unknown"),
                    },
                }
            }
        },
    }
}

/// How one container row relates to its declared container and the
/// statuses reported for the pod.
pub open spec fn container_ok(
    spec_c: RawContainerSpec,
    statuses: Seq<RawContainerStatus>,
    info: ContainerInfo,
) -> bool {
    let found = spec_find_status(statuses, spec_c.name@);
    &&& info.name@ == spec_c.name@
    &&& info.image@ == spec_or_empty(spec_c.image)
    &&& info.ready == match found {
        Some(st) => st.ready,
        None => false,
    }
    &&& info.restarts as int == match found {
        Some(st) => st.restart_count as int,
        None => 0,
    }
    &&& info.state@ == spec_container_state(
        match found {
            Some(st) => st.state,
            None => None,
        },
    )
}

/// Addition of restart counters, saturated at the `i32` bounds so that a
/// sum over many containers cannot overflow.
pub open spec fn sat_add_i32(a: int, b: int) -> int {
    if a + b > 0x7fff_ffff {
        0x7fff_ffff
    } else if a + b < -0x8000_0000 {
        -0x8000_0000
    } else {
        a + b
    }
}

/// The total restart count of a container row list, saturated.
pub open spec fn spec_restart_sum(cs: Seq<ContainerInfo>) -> int
    decreases cs.len(),
{
    if cs.len() == 0 {
        0
    } else {
        sat_add_i32(spec_restart_sum(cs.drop_last()), cs.last().restarts as int)
    }
}

/// How many container rows report ready.
pub open spec fn spec_ready_count(cs: Seq<ContainerInfo>) -> nat
    decreases cs.len(),
{
    if cs.len() == 0 {
        0
    } else {
        spec_ready_count(cs.drop_last()) + if cs.last().ready {
            1nat
        } else {
            0nat
        }
    }
}

/// How one pod row relates to the raw pod it was derived from.
pub open spec fn pod_ok(raw: RawPod, now: int, info: PodInfo) -> bool {
    let specs = match raw.containers {
        Some(v) => v@,
        None => Seq::<RawContainerSpec>::empty(),
    };
    let statuses = match raw.container_statuses {
        Some(v) => v@,
        None => Seq::<RawContainerStatus>::empty(),
    };
    &&& info.name@ == spec_or_empty(raw.meta.name)
    &&& info.namespace@ == spec_or_empty(raw.meta.namespace)
    &&& info.status@ == spec_or_else(raw.phase, "Unknown"@)
    &&& info.node@ == spec_or_empty(raw.node_name)
    &&& info.ip@ == spec_or_empty(raw.pod_ip)
    &&& info.age@ == spec_age(raw.meta.creation_ts, now)
    &&& info.containers@.len() == specs.len()
    &&& forall|j: int|
        0 <= j < specs.len() ==> container_ok(specs[j], statuses, #[trigger] info.containers@[j])
    &&& info.restarts as int == spec_restart_sum(info.containers@)
    &&& info.ready@ == spec_fraction(spec_ready_count(info.containers@) as int, specs.len() as int)
}

/// Flattens one raw pod into its display row, matching each declared
/// container with its reported status by name.
pub fn pod_info_of(raw: &RawPod, now: i64) -> (info: PodInfo)
    requires
        ts_ok(now as int),
        ts_ok_opt(raw.meta.creation_ts),
    ensures
        pod_ok(*raw, now as int, info),
{
    let empty_statuses: Vec<RawContainerStatus> = Vec::new();
    let statuses: &Vec<RawContainerStatus> = match &raw.container_statuses {
        Some(v) => v,
        None => &empty_statuses,
    };
    let empty_specs: Vec<RawContainerSpec> = Vec::new();
    let specs: &Vec<RawContainerSpec> = match &raw.containers {
        Some(v) => v,
        None => &empty_specs,
    };
    proof {
        assert(empty_statuses@ =~= Seq::<RawContainerStatus>::empty());
        assert(empty_specs@ =~= Seq::<RawContainerSpec>::empty());
    }
    let mut containers: Vec<ContainerInfo> = Vec::new();
    let mut restarts: i32 = 0;
    let mut ready_count: usize = 0;
    let mut i: usize = 0;
    while i < specs.len()
        invariant
            i <= specs@.len(),
            containers@.len() == i,
            ready_count <= i,
            forall|j: int|
                0 <= j < i ==> container_ok(specs@[j], statuses@, #[trigger] containers@[j]),
            restarts as int == spec_restart_sum(containers@),
            ready_count as nat == spec_ready_count(containers@),
        decreases specs@.len() - i,
    {
        let found = find_status(statuses, &specs[i].name);
        let info = match found {
            Some(st) => ContainerInfo {
                name: specs[i].name.clone(),
                image: clone_or_empty(&specs[i].image),
                ready: st.ready,
                restarts: st.restart_count,
                state: container_state_string(&st.state),
            },
            None => ContainerInfo {
                name: specs[i].name.clone(),
                image: clone_or_empty(&specs[i].image),
                ready: false,
                restarts: 0,
                state: {
                    let none_state: Option<RawContainerState> = None;
                    container_state_string(&none_state)
                },
            },
        };
        let ghost pre = containers@;
        if info.ready {
            ready_count = ready_count + 1;
        }
        let c_restarts: i32 = info.restarts;
        containers.push(info);
        // saturating accumulation of restart counters
        restarts = if c_restarts >= 0 {
            if restarts <= 0x7fff_ffff_i32 - c_restarts {
                restarts + c_restarts
            } else {
                0x7fff_ffff_i32
            }
        } else {
            if restarts >= -0x8000_0000_i32 - c_restarts {
                restarts + c_restarts
            } else {
                -0x8000_0000_i32
            }
        };
        i = i + 1;
        proof {
            assert(containers@.drop_last() =~= pre);
        }
    }
    PodInfo {
        name: clone_or_empty(&raw.meta.name),
        namespace: clone_or_empty(&raw.meta.namespace),
        status: clone_or_else(&raw.phase, "Unknown"),
        ready: fraction_usize(ready_count, specs.len()),
        restarts,
        age: format_age(&raw.meta.creation_ts, now),
        node: clone_or_empty(&raw.node_name),
        ip: clone_or_empty(&raw.pod_ip),
        containers,
    }
}

// ---------------------------------------------------------------------
// Services and ingresses
// ---------------------------------------------------------------------

/// A display-ready service row.
#[derive(Clone, Debug)]
pub struct ServiceInfo {
    pub name: String,
    pub namespace: String,
    pub service_type: String,
    pub cluster_ip: String,
    pub external_ip: String,
    pub ports: Vec<String>,
    pub age: String,
    pub selector: Vec<KeyValue>,
}

/// One declared port of a raw service.
#[derive(Clone, Debug)]
pub struct RawServicePort {
    pub port: i32,
    pub node_port: Option<i32>,
    pub protocol: Option<String>,
}

/// One ingress point a load balancer reports for a service: an address,
/// a host name, or neither.
#[derive(Clone, Debug)]
pub struct RawLbIngress {
    pub ip: Option<String>,
    pub hostname: Option<String>,
}

/// A raw service record. `lb_ingress` is the load-balancer ingress list,
/// absent when any link of the status chain is missing.
#[derive(Clone, Debug)]
pub struct RawService {
    pub meta: RawMeta,
    pub service_type: Option<String>,
    pub cluster_ip: Option<String>,
    pub external_ips: Option<Vec<String>>,
    pub lb_ingress: Option<Vec<RawLbIngress>>,
    pub ports: Option<Vec<RawServicePort>>,
    pub selector: Option<Vec<KeyValue>>,
}

/// The display text of one service port: `port:nodePort/protocol` when a
/// node port is assigned, else `port/protocol`; the protocol defaults to
/// `TCP`.
pub open spec fn spec_port_text(p: RawServicePort) -> Seq<char> {
    match p.node_port {
        Some(np) => spec_dec_int(p.port as int) + ":"@ + spec_dec_int(np as int) + "/"@
            + spec_or_else(p.protocol, "TCP"@),
        None => spec_dec_int(p.port as int) + "/"@ + spec_or_else(p.protocol, "TCP"@),
    }
}

fn port_text(p: &RawServicePort) -> (r: String)
    ensures
        r@ == spec_port_text(*p),
{
    let mut r: String = i64_to_string(p.port as i64);
    match &p.node_port {
        Some(np) => {
            r.append(":");
            let np_s: String = i64_to_string(*np as i64);
            r.append(np_s.as_str());
        },
        None => {},
    }
    r.append("/");
    let proto: String = clone_or_else(&p.protocol, "TCP");
    r.append(proto.as_str());
    r
}

/// Text pieces joined with a separator between neighbours.
pub open spec fn spec_join(parts: Seq<Seq<char>>, sep: Seq<char>) -> Seq<char>
    decreases parts.len(),
{
    if parts.len() == 0 {
        Seq::empty()
    } else if parts.len() == 1 {
        parts[0]
    } else {
        spec_join(parts.drop_last(), sep) + sep + parts.last()
    }
}

fn join_strings(parts: &Vec<String>, sep: &str) -> (r: String)
    ensures
        r@ == spec_join(parts.deep_view(), sep@),
{
    let mut r: String = String::new();
    let mut i: usize = 0;
    while i < parts.len()
        invariant
            i <= parts@.len(),
            r@ == spec_join(parts.deep_view().take(i as int), sep@),
        decreases parts@.len() - i,
    {
        let ghost pre = parts.deep_view().take(i as int);
        if i > 0 {
            r.append(sep);
        }
        r.append(parts[i].as_str());
        i = i + 1;
        proof {
            let post = parts.deep_view().take(i as int);
            assert(post.drop_last() =~= pre);
            assert(post.last() == parts.deep_view()[i - 1]);
            if i == 1 {
                assert(r@ =~= post[0]);
            }
        }
    }
    proof {
        assert(parts.deep_view().take(parts@.len() as int) =~= parts.deep_view());
    }
    r
}

/// The display names a load-balancer ingress list contributes: the
/// address when reported, else the host name, else nothing.
pub open spec fn spec_lb_names(s: Seq<RawLbIngress>) -> Seq<Seq<char>>
    decreases s.len(),
{
    if s.len() == 0 {
        Seq::empty()
    } else {
        spec_lb_names(s.drop_last()) + match s.last().ip {
            Some(ip) => seq![ip@],
            None => match s.last().hostname {
                Some(h) => seq![h@],
                None => Seq::empty(),
            },
        }
    }
}

/// The external address text of a service: the declared external
/// addresses joined when present, else what the load balancer reports,
/// else `<none>`.
pub open spec fn spec_external_ip(
    external_ips: Option<Vec<String>>,
    lb_ingress: Option<Vec<RawLbIngress>>,
) -> Seq<char> {
    match external_ips {
        Some(ips) => spec_join(ips.deep_view(), ", "@),
        None => match lb_ingress {
            Some(ing) => spec_join(spec_lb_names(ing@), ", "@),
            None => "<none>"@,
        },
    }
}

fn lb_names(ing: &Vec<RawLbIngress>) -> (r: Vec<String>)
    ensures
        r.deep_view() == spec_lb_names(ing@),
{
    let mut out: Vec<String> = Vec::new();
    let mut i: usize = 0;
    while i < ing.len()
        invariant
            i <= ing@.len(),
            out.deep_view() == spec_lb_names(ing@.take(i as int)),
        decreases ing@.len() - i,
    {
        let ghost pre = ing@.take(i as int);
        match &ing[i].ip {
            Some(ip) => {
                out.push(ip.clone());
            },
            None => match &ing[i].hostname {
                Some(h) => {
                    out.push(h.clone());
                },
                None => {},
            },
        }
        i = i + 1;
        proof {
            let post = ing@.take(i as int);
            assert(post.drop_last() =~= pre);
            assert(post.last() == ing@[i - 1]);
            assert(out.deep_view() =~= spec_lb_names(post));
        }
    }
    proof {
        assert(ing@.take(ing@.len() as int) =~= ing@);
    }
    out
}

/// How one service row relates to the raw service it was derived from.
pub open spec fn service_ok(raw: RawService, now: int, info: ServiceInfo) -> bool {
    let ports = match raw.ports {
        Some(v) => v@,
        None => Seq::<RawServicePort>::empty(),
    };
    &&& info.name@ == spec_or_empty(raw.meta.name)
    &&& info.namespace@ == spec_or_empty(raw.meta.namespace)
    &&& info.service_type@ == spec_or_else(raw.service_type, "ClusterIP"@)
    &&& info.cluster_ip@ == spec_or_empty(raw.cluster_ip)
    &&& info.external_ip@ == spec_external_ip(raw.external_ips, raw.lb_ingress)
    &&& info.ports@.len() == ports.len()
    &&& forall|j: int| 0 <= j < ports.len() ==> (#[trigger] info.ports@[j])@ == spec_port_text(ports[j])
    &&& info.age@ == spec_age(raw.meta.creation_ts, now)
    &&& info.selector.deep_view() == match raw.selector {
        Some(s) => s.deep_view(),
        None => Seq::<KeyValueV>::empty(),
    }
}

/// Flattens one raw service into its display row.
pub fn service_info_of(raw: &RawService, now: i64) -> (info: ServiceInfo)
    requires
        ts_ok(now as int),
        ts_ok_opt(raw.meta.creation_ts),
    ensures
        service_ok(*raw, now as int, info),
{
    let external_ip: String = match &raw.external_ips {
        Some(ips) => join_strings(ips, ", "),
        None => match &raw.lb_ingress {
            Some(ing) => {
                let names: Vec<String> = lb_names(ing);
                join_strings(&names, ", ")
            },
            None => String::from_str("<none>"),
        },
    };
    let ports: Vec<String> = match &raw.ports {
        Some(v) => {
            let mut out: Vec<String> = Vec::new();
            let mut i: usize = 0;
            while i < v.len()
                invariant
                    i <= v@.len(),
                    out@.len() == i,
                    forall|j: int| 0 <= j < i ==> (#[trigger] out@[j])@ == spec_port_text(v@[j]),
                decreases v@.len() - i,
            {
                out.push(port_text(&v[i]));
                i = i + 1;
            }
            out
        },
        None => Vec::new(),
    };
    ServiceInfo {
        name: clone_or_empty(&raw.meta.name),
        namespace: clone_or_empty(&raw.meta.namespace),
        service_type: clone_or_else(&raw.service_type, "ClusterIP"),
        cluster_ip: clone_or_empty(&raw.cluster_ip),
        external_ip,
        ports,
        age: format_age(&raw.meta.creation_ts, now),
        selector: clone_kvs_opt(&raw.selector),
    }
}

/// Flattens a raw service listing into display rows, in order.
pub fn list_services(items: &Vec<RawService>, now: i64) -> (r: Vec<ServiceInfo>)
    requires
        ts_ok(now as int),
        forall|i: int| 0 <= i < items@.len() ==> ts_ok_opt(#[trigger] items@[i].meta.creation_ts),
    ensures
        r@.len() == items@.len(),
        forall|i: int| 0 <= i < items@.len() ==> service_ok(items@[i], now as int, #[trigger] r@[i]),
{
    let mut out: Vec<ServiceInfo> = Vec::new();
    let mut i: usize = 0;
    while i < items.len()
        invariant
            i <= items@.len(),
            out@.len() == i,
            ts_ok(now as int),
            forall|k: int| 0 <= k < items@.len() ==> ts_ok_opt(#[trigger] items@[k].meta.creation_ts),
            forall|j: int| 0 <= j < i ==> service_ok(items@[j], now as int, #[trigger] out@[j]),
        decreases items@.len() - i,
    {
        out.push(service_info_of(&items[i], now));
        i = i + 1;
    }
    out
}

/// A display-ready ingress row.
#[derive(Clone, Debug)]
pub struct IngressInfo {
    pub name: String,
    pub namespace: String,
    pub hosts: Vec<String>,
    pub paths: Vec<String>,
    pub age: String,
}

/// One rule of a raw ingress: an optional host, and the rule's HTTP path
/// list when an HTTP section is present; each path may be unset.
#[derive(Clone, Debug)]
pub struct RawIngressRule {
    pub host: Option<String>,
    pub http_paths: Option<Vec<Option<String>>>,
}

/// A raw ingress record.
#[derive(Clone, Debug)]
pub struct RawIngress {
    pub meta: RawMeta,
    pub rules: Option<Vec<RawIngressRule>>,
}

/// The hosts an ingress rule list displays, in rule order.
pub open spec fn spec_ingress_hosts(s: Seq<RawIngressRule>) -> Seq<Seq<char>>
    decreases s.len(),
{
    if s.len() == 0 {
        Seq::empty()
    } else {
        spec_ingress_hosts(s.drop_last()) + match s.last().host {
            Some(h) => seq![h@],
            None => Seq::empty(),
        }
    }
}

/// The paths one rule contributes: each unset path reads as `/`.
pub open spec fn spec_rule_paths(r: RawIngressRule) -> Seq<Seq<char>> {
    match r.http_paths {
        Some(ps) => ps@.map_values(|p: Option<String>| spec_or_else(p, "/"@)),
        None => Seq::empty(),
    }
}

/// The paths an ingress rule list displays, in rule order.
pub open spec fn spec_ingress_paths(s: Seq<RawIngressRule>) -> Seq<Seq<char>>
    decreases s.len(),
{
    if s.len() == 0 {
        Seq::empty()
    } else {
        spec_ingress_paths(s.drop_last()) + spec_rule_paths(s.last())
    }
}

/// How one ingress row relates to the raw ingress it was derived from.
pub open spec fn ingress_ok(raw: RawIngress, now: int, info: IngressInfo) -> bool {
    let rules = match raw.rules {
        Some(v) => v@,
        None => Seq::<RawIngressRule>::empty(),
    };
    &&& info.name@ == spec_or_empty(raw.meta.name)
    &&& info.namespace@ == spec_or_empty(raw.meta.namespace)
    &&& info.hosts.deep_view() == spec_ingress_hosts(rules)
    &&& info.paths.deep_view() == spec_ingress_paths(rules)
    &&& info.age@ == spec_age(raw.meta.creation_ts, now)
}

/// Flattens one raw ingress into its display row, walking the rules in
/// order and collecting hosts and paths.
pub fn ingress_info_of(raw: &RawIngress, now: i64) -> (info: IngressInfo)
    requires
        ts_ok(now as int),
        ts_ok_opt(raw.meta.creation_ts),
    ensures
        ingress_ok(*raw, now as int, info),
{
    let mut hosts: Vec<String> = Vec::new();
    let mut paths: Vec<String> = Vec::new();
    let empty_rules: Vec<RawIngressRule> = Vec::new();
    let rules: &Vec<RawIngressRule> = match &raw.rules {
        Some(v) => v,
        None => &empty_rules,
    };
    proof {
        assert(empty_rules@ =~= Seq::<RawIngressRule>::empty());
    }
    let mut i: usize = 0;
    while i < rules.len()
        invariant
            i <= rules@.len(),
            hosts.deep_view() == spec_ingress_hosts(rules@.take(i as int)),
            paths.deep_view() == spec_ingress_paths(rules@.take(i as int)),
        decreases rules@.len() - i,
    {
        let ghost pre = rules@.take(i as int);
        match &rules[i].host {
            Some(h) => {
                hosts.push(h.clone());
            },
            None => {},
        }
        match &rules[i].http_paths {
            Some(ps) => {
                let ghost paths_before = paths.deep_view();
                let mut j: usize = 0;
                while j < ps.len()
                    invariant
                        j <= ps@.len(),
                        paths.deep_view() == paths_before + ps@.take(j as int).map_values(
                            |p: Option<String>| spec_or_else(p, "/"@),
                        ),
                    decreases ps@.len() - j,
                {
                    let ghost dv_pre = paths.deep_view();
                    paths.push(clone_or_else(&ps[j], "/"));
                    j = j + 1;
                    proof {
                        assert(ps@.take(j as int).map_values(
                            |p: Option<String>| spec_or_else(p, "/"@),
                        ) =~= ps@.take(j - 1).map_values(|p: Option<String>| spec_or_else(p, "/"@))
                            + seq![spec_or_else(ps@[j - 1], "/"@)]);
                        assert(paths.deep_view() =~= dv_pre + seq![spec_or_else(ps@[j - 1], "/"@)]);
                    }
                }
                proof {
                    assert(ps@.take(ps@.len() as int) =~= ps@);
                }
            },
            None => {},
        }
        i = i + 1;
        proof {
            let post = rules@.take(i as int);
            assert(post.drop_last() =~= pre);
            assert(post.last() == rules@[i - 1]);
            assert(hosts.deep_view() =~= spec_ingress_hosts(post));
            assert(paths.deep_view() =~= spec_ingress_paths(post));
        }
    }
    proof {
        assert(rules@.take(rules@.len() as int) =~= rules@);
    }
    IngressInfo {
        name: clone_or_empty(&raw.meta.name),
        namespace: clone_or_empty(&raw.meta.namespace),
        hosts,
        paths,
        age: format_age(&raw.meta.creation_ts, now),
    }
}

/// Flattens a raw ingress listing into display rows, in order.
pub fn list_ingresses(items: &Vec<RawIngress>, now: i64) -> (r: Vec<IngressInfo>)
    requires
        ts_ok(now as int),
        forall|i: int| 0 <= i < items@.len() ==> ts_ok_opt(#[trigger] items@[i].meta.creation_ts),
    ensures
        r@.len() == items@.len(),
        forall|i: int| 0 <= i < items@.len() ==> ingress_ok(items@[i], now as int, #[trigger] r@[i]),
{
    let mut out: Vec<IngressInfo> = Vec::new();
    let mut i: usize = 0;
    while i < items.len()
        invariant
            i <= items@.len(),
            out@.len() == i,
            ts_ok(now as int),
            forall|k: int| 0 <= k < items@.len() ==> ts_ok_opt(#[trigger] items@[k].meta.creation_ts),
            forall|j: int| 0 <= j < i ==> ingress_ok(items@[j], now as int, #[trigger] out@[j]),
        decreases items@.len() - i,
    {
        out.push(ingress_info_of(&items[i], now));
        i = i + 1;
    }
    out
}

/// Flattens a raw pod listing into display rows, in order.
pub fn list_pods(items: &Vec<RawPod>, now: i64) -> (r: Vec<PodInfo>)
    requires
        ts_ok(now as int),
        forall|i: int| 0 <= i < items@.len() ==> ts_ok_opt(#[trigger] items@[i].meta.creation_ts),
    ensures
        r@.len() == items@.len(),
        forall|i: int| 0 <= i < items@.len() ==> pod_ok(items@[i], now as int, #[trigger] r@[i]),
{
    let mut out: Vec<PodInfo> = Vec::new();
    let mut i: usize = 0;
    while i < items.len()
        invariant
            i <= items@.len(),
            out@.len() == i,
            ts_ok(now as int),
            forall|k: int| 0 <= k < items@.len() ==> ts_ok_opt(#[trigger] items@[k].meta.creation_ts),
            forall|j: int| 0 <= j < i ==> pod_ok(items@[j], now as int, #[trigger] out@[j]),
        decreases items@.len() - i,
    {
        out.push(pod_info_of(&items[i], now));
        i = i + 1;
    }
    out
}

// ---------------------------------------------------------------------
// ConfigMaps and secrets
// ---------------------------------------------------------------------

/// A display-ready configuration-map row.
#[derive(Clone, Debug)]
pub struct ConfigMapInfo {
    pub name: String,
    pub namespace: String,
    pub data_count: usize,
    pub age: String,
    pub data: Vec<KeyValue>,
}

/// A raw configuration-map record.
#[derive(Clone, Debug)]
pub struct RawConfigMap {
    pub meta: RawMeta,
    pub data: Option<Vec<KeyValue>>,
}

/// How one configuration-map row relates to its raw record.
pub open spec fn configmap_ok(raw: RawConfigMap, now: int, info: ConfigMapInfo) -> bool {
    let data = match raw.data {
        Some(d) => d.deep_view(),
        None => Seq::<KeyValueV>::empty(),
    };
    &&& info.name@ == spec_or_empty(raw.meta.name)
    &&& info.namespace@ == spec_or_empty(raw.meta.namespace)
    &&& info.data.deep_view() == data
    &&& info.data_count == data.len()
    &&& info.age@ == spec_age(raw.meta.creation_ts, now)
}

/// Flattens one raw configuration map into its display row.
pub fn configmap_info_of(raw: &RawConfigMap, now: i64) -> (info: ConfigMapInfo)
    requires
        ts_ok(now as int),
        ts_ok_opt(raw.meta.creation_ts),
    ensures
        configmap_ok(*raw, now as int, info),
{
    let data: Vec<KeyValue> = clone_kvs_opt(&raw.data);
    let data_count: usize = data.len();
    ConfigMapInfo {
        name: clone_or_empty(&raw.meta.name),
        namespace: clone_or_empty(&raw.meta.namespace),
        data_count,
        age: format_age(&raw.meta.creation_ts, now),
        data,
    }
}

/// Flattens a raw configuration-map listing into display rows, in order.
pub fn list_configmaps(items: &Vec<RawConfigMap>, now: i64) -> (r: Vec<ConfigMapInfo>)
    requires
        ts_ok(now as int),
        forall|i: int| 0 <= i < items@.len() ==> ts_ok_opt(#[trigger] items@[i].meta.creation_ts),
    ensures
        r@.len() == items@.len(),
        forall|i: int| 0 <= i < items@.len() ==> configmap_ok(items@[i], now as int, #[trigger] r@[i]),
{
    let mut out: Vec<ConfigMapInfo> = Vec::new();
    let mut i: usize = 0;
    while i < items.len()
        invariant
            i <= items@.len(),
            out@.len() == i,
            ts_ok(now as int),
            forall|k: int| 0 <= k < items@.len() ==> ts_ok_opt(#[trigger] items@[k].meta.creation_ts),
            forall|j: int| 0 <= j < i ==> configmap_ok(items@[j], now as int, #[trigger] out@[j]),
        decreases items@.len() - i,
    {
        out.push(configmap_info_of(&items[i], now));
        i = i + 1;
    }
    out
}

/// A display-ready secret row; values are never read, only key names.
#[derive(Clone, Debug)]
pub struct SecretInfo {
    pub name: String,
    pub namespace: String,
    pub secret_type: String,
    pub data_count: usize,
    pub age: String,
    pub data_keys: Vec<String>,
}

/// A raw secret record: its type and the names of its data keys.
#[derive(Clone, Debug)]
pub struct RawSecret {
    pub meta: RawMeta,
    pub secret_type: Option<String>,
    pub data_keys: Option<Vec<String>>,
}

/// How one secret row relates to its raw record.
pub open spec fn secret_ok(raw: RawSecret, now: int, info: SecretInfo) -> bool {
    let keys = match raw.data_keys {
        Some(k) => k.deep_view(),
        None => Seq::<Seq<char>>::empty(),
    };
    &&& info.name@ == spec_or_empty(raw.meta.name)
    &&& info.namespace@ == spec_or_empty(raw.meta.namespace)
    &&& info.secret_type@ == spec_or_else(raw.secret_type, "Opaque"@)
    &&& info.data_keys.deep_view() == keys
    &&& info.data_count == keys.len()
    &&& info.age@ == spec_age(raw.meta.creation_ts, now)
}

/// Flattens one raw secret into its display row.
pub fn secret_info_of(raw: &RawSecret, now: i64) -> (info: SecretInfo)
    requires
        ts_ok(now as int),
        ts_ok_opt(raw.meta.creation_ts),
    ensures
        secret_ok(*raw, now as int, info),
{
    let data_keys: Vec<String> = match &raw.data_keys {
        Some(k) => clone_strings(k),
        None => {
            let out: Vec<String> = Vec::new();
            proof {
                assert(out.deep_view() =~= Seq::<Seq<char>>::empty());
            }
            out
        },
    };
    let data_count: usize = data_keys.len();
    SecretInfo {
        name: clone_or_empty(&raw.meta.name),
        namespace: clone_or_empty(&raw.meta.namespace),
        secret_type: clone_or_else(&raw.secret_type, "Opaque"),
        data_count,
        age: format_age(&raw.meta.creation_ts, now),
        data_keys,
    }
}

/// Flattens a raw secret listing into display rows, in order.
pub fn list_secrets(items: &Vec<RawSecret>, now: i64) -> (r: Vec<SecretInfo>)
    requires
        ts_ok(now as int),
        forall|i: int| 0 <= i < items@.len() ==> ts_ok_opt(#[trigger] items@[i].meta.creation_ts),
    ensures
        r@.len() == items@.len(),
        forall|i: int| 0 <= i < items@.len() ==> secret_ok(items@[i], now as int, #[trigger] r@[i]),
{
    let mut out: Vec<SecretInfo> = Vec::new();
    let mut i: usize = 0;
    while i < items.len()
        invariant
            i <= items@.len(),
            out@.len() == i,
            ts_ok(now as int),
            forall|k: int| 0 <= k < items@.len() ==> ts_ok_opt(#[trigger] items@[k].meta.creation_ts),
            forall|j: int| 0 <= j < i ==> secret_ok(items@[j], now as int, #[trigger] out@[j]),
        decreases items@.len() - i,
    {
        out.push(secret_info_of(&items[i], now));
        i = i + 1;
    }
    out
}

// ---------------------------------------------------------------------
// Jobs
// ---------------------------------------------------------------------

/// Overall status derived for a batch job from its counters.
#[derive(Clone, Copy, Debug, PartialEq, Eq, Structural)]
pub enum JobStatus {
    Running,
    Succeeded,
    Failed,
    Pending,
}

/// The status a job's counters derive, in priority order: any success
/// first, then any failure, then any activity, else pending.
pub open spec fn spec_job_status(succeeded: int, failed: int, active: int) -> JobStatus {
    if succeeded > 0 {
        JobStatus::Succeeded
    } else if failed > 0 {
        JobStatus::Failed
    } else if active > 0 {
        JobStatus::Running
    } else {
        JobStatus::Pending
    }
}

/// Derives the status of a job from its `succeeded`, `failed` and
/// `active` counters.
pub fn job_status_of(succeeded: i32, failed: i32, active: i32) -> (r: JobStatus)
    ensures
        r == spec_job_status(succeeded as int, failed as int, active as int),
{
    if succeeded > 0 {
        JobStatus::Succeeded
    } else if failed > 0 {
        JobStatus::Failed
    } else if active > 0 {
        JobStatus::Running
    } else {
        JobStatus::Pending
    }
}

/// A display-ready job row.
#[derive(Debug)]
pub struct JobInfo {
    pub name: String,
    pub namespace: String,
    pub completions: String,
    pub duration: String,
    pub age: String,
    pub status: JobStatus,
    pub owner: Option<String>,
}

impl Clone for JobInfo {
    fn clone(&self) -> (r: Self)
        ensures
            r == *self,
    {
        JobInfo {
            name: self.name.clone(),
            namespace: self.namespace.clone(),
            completions: self.completions.clone(),
            duration: self.duration.clone(),
            age: self.age.clone(),
            status: self.status,
            owner: match &self.owner {
                Some(o) => Some(o.clone()),
                None => None,
            },
        }
    }
}

/// A raw job record. `owner_names` lists the names of its owner
/// references in order; the first one, if any, is the displayed owner.
#[derive(Clone, Debug)]
pub struct RawJob {
    pub meta: RawMeta,
    pub succeeded: Option<i32>,
    pub failed: Option<i32>,
    pub active: Option<i32>,
    pub completions: Option<i32>,
    pub start_ts: Option<i64>,
    pub completion_ts: Option<i64>,
    pub owner_names: Option<Vec<String>>,
}

/// The duration text of a job: seconds from start to completion, or to
/// now while unfinished; `-` when the job never started.
pub open spec fn spec_duration(start: Option<i64>, completion: Option<i64>, now: int) -> Seq<
    char,
> {
    match start {
        None => "-"@,
        Some(st) => {
            let end = match completion {
                Some(c) => c as int,
                None => now,
            };
            spec_dec_int(end - st) + "s"@
        },
    }
}

/// How one job row relates to the raw job it was derived from.
pub open spec fn job_ok(raw: RawJob, now: int, info: JobInfo) -> bool {
    &&& info.name@ == spec_or_empty(raw.meta.name)
    &&& info.namespace@ == spec_or_empty(raw.meta.namespace)
    &&& info.completions@ == spec_fraction(
        spec_or_int(raw.succeeded, 0),
        spec_or_int(raw.completions, 1),
    )
    &&& info.duration@ == spec_duration(raw.start_ts, raw.completion_ts, now)
    &&& info.age@ == spec_age(raw.meta.creation_ts, now)
    &&& info.status == spec_job_status(
        spec_or_int(raw.succeeded, 0),
        spec_or_int(raw.failed, 0),
        spec_or_int(raw.active, 0),
    )
    &&& match raw.owner_names {
        Some(os) => if os@.len() > 0 {
            info.owner matches Some(o) && o@ == (os@[0])@
        } else {
            info.owner is None
        },
        None => info.owner is None,
    }
}

/// Flattens one raw job into its display row, deriving its status in
/// priority order and its duration and age relative to `now`.
pub fn job_info_of(raw: &RawJob, now: i64) -> (info: JobInfo)
    requires
        ts_ok(now as int),
        ts_ok_opt(raw.meta.creation_ts),
        ts_ok_opt(raw.start_ts),
        ts_ok_opt(raw.completion_ts),
    ensures
        job_ok(*raw, now as int, info),
{
    let duration: String = match &raw.start_ts {
        None => String::from_str("-"),
        Some(st) => {
            let end: i64 = match &raw.completion_ts {
                Some(c) => *c,
                None => now,
            };
            let mut d: String = i64_to_string(end - *st);
            d.append("s");
            d
        },
    };
    let owner: Option<String> = match &raw.owner_names {
        Some(os) => {
            if os.len() > 0 {
                Some(os[0].clone())
            } else {
                None
            }
        },
        None => None,
    };
    JobInfo {
        name: clone_or_empty(&raw.meta.name),
        namespace: clone_or_empty(&raw.meta.namespace),
        completions: fraction_string(
            or_int(&raw.succeeded, 0) as i64,
            or_int(&raw.completions, 1) as i64,
        ),
        duration,
        age: format_age(&raw.meta.creation_ts, now),
        status: job_status_of(
            or_int(&raw.succeeded, 0),
            or_int(&raw.failed, 0),
            or_int(&raw.active, 0),
        ),
        owner,
    }
}

/// Flattens a raw job listing into display rows, in order.
pub fn list_jobs(items: &Vec<RawJob>, now: i64) -> (r: Vec<JobInfo>)
    requires
        ts_ok(now as int),
        forall|i: int| 0 <= i < items@.len() ==> ts_ok_opt(#[trigger] items@[i].meta.creation_ts),
        forall|i: int| 0 <= i < items@.len() ==> ts_ok_opt(#[trigger] items@[i].start_ts),
        forall|i: int| 0 <= i < items@.len() ==> ts_ok_opt(#[trigger] items@[i].completion_ts),
    ensures
        r@.len() == items@.len(),
        forall|i: int| 0 <= i < items@.len() ==> job_ok(items@[i], now as int, #[trigger] r@[i]),
{
    let mut out: Vec<JobInfo> = Vec::new();
    let mut i: usize = 0;
    while i < items.len()
        invariant
            i <= items@.len(),
            out@.len() == i,
            ts_ok(now as int),
            forall|k: int| 0 <= k < items@.len() ==> ts_ok_opt(#[trigger] items@[k].meta.creation_ts),
            forall|k: int| 0 <= k < items@.len() ==> ts_ok_opt(#[trigger] items@[k].start_ts),
            forall|k: int| 0 <= k < items@.len() ==> ts_ok_opt(#[trigger] items@[k].completion_ts),
            forall|j: int| 0 <= j < i ==> job_ok(items@[j], now as int, #[trigger] out@[j]),
        decreases items@.len() - i,
    {
        out.push(job_info_of(&items[i], now));
        i = i + 1;
    }
    out
}

// ---------------------------------------------------------------------
// CronJobs
// ---------------------------------------------------------------------

/// A display-ready scheduled-job row.
#[derive(Clone, Debug)]
pub struct CronJobInfo {
    pub name: String,
    pub namespace: String,
    pub schedule: String,
    pub suspend: bool,
    pub active: i32,
    pub last_schedule: Option<String>,
    pub age: String,
}

/// A raw scheduled-job record. `active_count` is how many runs its
/// status lists as active.
#[derive(Clone, Debug)]
pub struct RawCronJob {
    pub meta: RawMeta,
    pub schedule: Option<String>,
    pub suspend: Option<bool>,
    pub active_count: Option<usize>,
    pub last_schedule_ts: Option<i64>,
}

/// How one scheduled-job row relates to its raw record.
pub open spec fn cronjob_ok(raw: RawCronJob, now: int, info: CronJobInfo) -> bool {
    &&& info.name@ == spec_or_empty(raw.meta.name)
    &&& info.namespace@ == spec_or_empty(raw.meta.namespace)
    &&& info.schedule@ == spec_or_empty(raw.schedule)
    &&& info.suspend == match raw.suspend {
        Some(s) => s,
        None => false,
    }
    &&& info.active as int == match raw.active_count {
        Some(c) => c as int,
        None => 0,
    }
    &&& match raw.last_schedule_ts {
        Some(t) => info.last_schedule matches Some(s) && s@ == spec_age(Some(t), now),
        None => info.last_schedule is None,
    }
    &&& info.age@ == spec_age(raw.meta.creation_ts, now)
}

/// Flattens one raw scheduled job into its display row.
pub fn cronjob_info_of(raw: &RawCronJob, now: i64) -> (info: CronJobInfo)
    requires
        ts_ok(now as int),
        ts_ok_opt(raw.meta.creation_ts),
        ts_ok_opt(raw.last_schedule_ts),
        match raw.active_count {
            Some(c) => c <= 0x7fff_ffff,
            None => true,
        },
    ensures
        cronjob_ok(*raw, now as int, info),
{
    let active: i32 = match &raw.active_count {
        Some(c) => *c as i32,
        None => 0,
    };
    let last_schedule: Option<String> = match &raw.last_schedule_ts {
        Some(t) => {
            let some_t: Option<i64> = Some(*t);
            Some(format_age(&some_t, now))
        },
        None => None,
    };
    CronJobInfo {
        name: clone_or_empty(&raw.meta.name),
        namespace: clone_or_empty(&raw.meta.namespace),
        schedule: clone_or_empty(&raw.schedule),
        suspend: match &raw.suspend {
            Some(s) => *s,
            None => false,
        },
        active,
        last_schedule,
        age: format_age(&raw.meta.creation_ts, now),
    }
}

/// Flattens a raw scheduled-job listing into display rows, in order.
pub fn list_cronjobs(items: &Vec<RawCronJob>, now: i64) -> (r: Vec<CronJobInfo>)
    requires
        ts_ok(now as int),
        forall|i: int| 0 <= i < items@.len() ==> ts_ok_opt(#[trigger] items@[i].meta.creation_ts),
        forall|i: int| 0 <= i < items@.len() ==> ts_ok_opt(#[trigger] items@[i].last_schedule_ts),
        forall|i: int|
            0 <= i < items@.len() ==> match (#[trigger] items@[i]).active_count {
                Some(c) => c <= 0x7fff_ffff,
                None => true,
            },
    ensures
        r@.len() == items@.len(),
        forall|i: int| 0 <= i < items@.len() ==> cronjob_ok(items@[i], now as int, #[trigger] r@[i]),
{
    let mut out: Vec<CronJobInfo> = Vec::new();
    let mut i: usize = 0;
    while i < items.len()
        invariant
            i <= items@.len(),
            out@.len() == i,
            ts_ok(now as int),
            forall|k: int| 0 <= k < items@.len() ==> ts_ok_opt(#[trigger] items@[k].meta.creation_ts),
            forall|k: int| 0 <= k < items@.len() ==> ts_ok_opt(#[trigger] items@[k].last_schedule_ts),
            forall|k: int|
                0 <= k < items@.len() ==> match (#[trigger] items@[k]).active_count {
                    Some(c) => c <= 0x7fff_ffff,
                    None => true,
                },
            forall|j: int| 0 <= j < i ==> cronjob_ok(items@[j], now as int, #[trigger] out@[j]),
        decreases items@.len() - i,
    {
        out.push(cronjob_info_of(&items[i], now));
        i = i + 1;
    }
    out
}

// ---------------------------------------------------------------------
// Triggering a scheduled job by hand, and its run history
// ---------------------------------------------------------------------

/// The back-reference a manually created run carries to its parent, so
/// the run is attributable and garbage-collected with the parent.
#[derive(Clone, Debug)]
pub struct OwnerRef {
    pub api_version: String,
    pub kind: String,
    pub name: String,
    pub uid: String,
    pub controller: bool,
    pub block_owner_deletion: bool,
}

/// What the trigger planning reads from the fetched parent record: its
/// uid and, when the record carries a spec, the template's metadata.
#[derive(Clone, Debug)]
pub struct TriggerSource {
    pub uid: Option<String>,
    pub template: Option<TemplateMeta>,
}

/// The metadata of a run template: labels and annotations to copy onto
/// the created run.
#[derive(Clone, Debug)]
pub struct TemplateMeta {
    pub labels: Option<Vec<KeyValue>>,
    pub annotations: Option<Vec<KeyValue>>,
}

/// The plan for one manually triggered run: the name and metadata of the
/// run to create. The caller creates the run from the parent's pod
/// template and this plan.
#[derive(Clone, Debug)]
pub struct JobPlan {
    pub job_name: String,
    pub namespace: String,
    pub labels: Vec<KeyValue>,
    pub annotations: Vec<KeyValue>,
    pub owner: OwnerRef,
}

/// The name a manually triggered run gets: the parent's name, `-manual-`
/// and the trigger time in whole seconds.
pub open spec fn spec_manual_job_name(parent: Seq<char>, now_ts: int) -> Seq<char> {
    parent + "-manual-"@ + spec_dec_int(now_ts)
}

/// Plans a manually triggered run of the scheduled job `cronjob_name`.
/// Fails exactly when the fetched parent record carries no template;
/// otherwise the plan names the run `{parent}-manual-{now_ts}`, copies
/// the template's labels and annotations, and sets a controller owner
/// reference back to the parent with deletion blocking on.
pub fn trigger_cronjob(namespace: &String, cronjob_name: &String, source: &TriggerSource, now_ts: i64) -> (r: Result<JobPlan, MutateError>)
    ensures
        source.template is None ==> (r matches Err(e) && e.message@
            == "CronJob has no job template"@),
        source.template matches Some(t) ==> r matches Ok(p) && {
            &&& p.job_name@ == spec_manual_job_name(cronjob_name@, now_ts as int)
            &&& p.namespace@ == namespace@
            &&& p.labels.deep_view() == match t.labels {
                Some(l) => l.deep_view(),
                None => Seq::<KeyValueV>::empty(),
            }
            &&& p.annotations.deep_view() == match t.annotations {
                Some(a) => a.deep_view(),
                None => Seq::<KeyValueV>::empty(),
            }
            &&& p.owner.api_version@ == "batch/v1"@
            &&& p.owner.kind@ == "CronJob"@
            &&& p.owner.name@ == cronjob_name@
            &&& p.owner.uid@ == spec_or_empty(source.uid)
            &&& p.owner.controller
            &&& p.owner.block_owner_deletion
        },
{
    match &source.template {
        None => Err(MutateError { message: String::from_str("CronJob has no job template") }),
        Some(t) => {
            let mut job_name: String = cronjob_name.clone();
            job_name.append("-manual-");
            let ts: String = i64_to_string(now_ts);
            job_name.append(ts.as_str());
            Ok(
                JobPlan {
                    job_name,
                    namespace: namespace.clone(),
                    labels: clone_kvs_opt(&t.labels),
                    annotations: clone_kvs_opt(&t.annotations),
                    owner: OwnerRef {
                        api_version: String::from_str("batch/v1"),
                        kind: String::from_str("CronJob"),
                        name: cronjob_name.clone(),
                        uid: clone_or_empty(&source.uid),
                        controller: true,
                        block_owner_deletion: true,
                    },
                },
            )
        },
    }
}

/// The job rows owned by the given parent, in listing order: exactly
/// those whose displayed owner equals the parent's name.
pub open spec fn spec_history(jobs: Seq<JobInfo>, parent: Seq<char>) -> Seq<JobInfo>
    decreases jobs.len(),
{
    if jobs.len() == 0 {
        Seq::empty()
    } else {
        spec_history(jobs.drop_last(), parent) + if jobs.last().owner matches Some(o) && o@
            == parent {
            seq![jobs.last()]
        } else {
            Seq::empty()
        }
    }
}

/// Computes the run history of one parent client-side: the jobs whose
/// owner reference names the parent, order kept; runs owned by other
/// parents are excluded.
pub fn get_cronjob_history(jobs: &Vec<JobInfo>, cronjob_name: &String) -> (r: Vec<JobInfo>)
    ensures
        r@ == spec_history(jobs@, cronjob_name@),
{
    let mut out: Vec<JobInfo> = Vec::new();
    let mut i: usize = 0;
    while i < jobs.len()
        invariant
            i <= jobs@.len(),
            out@ == spec_history(jobs@.take(i as int), cronjob_name@),
        decreases jobs@.len() - i,
    {
        let ghost pre = jobs@.take(i as int);
        let keep: bool = match &jobs[i].owner {
            Some(o) => *o == *cronjob_name,
            None => false,
        };
        if keep {
            out.push(jobs[i].clone());
        }
        i = i + 1;
        proof {
            let post = jobs@.take(i as int);
            assert(post.drop_last() =~= pre);
            assert(post.last() == jobs@[i - 1]);
            assert(out@ =~= spec_history(post, cronjob_name@));
        }
    }
    proof {
        assert(jobs@.take(jobs@.len() as int) =~= jobs@);
    }
    out
}

// ---------------------------------------------------------------------
// Confirmation texts for completed mutations
// ---------------------------------------------------------------------

/// `Scaled {name} to {replicas} replicas`.
pub fn scale_summary(name: &String, replicas: i32) -> (r: String)
    ensures
        r@ == "Scaled "@ + name@ + " to "@ + spec_dec_int(replicas as int) + " replicas"@,
{
    let mut s: String = String::from_str("Scaled ");
    s.append(name.as_str());
    s.append(" to ");
    let n: String = i32_to_string(replicas);
    s.append(n.as_str());
    s.append(" replicas");
    s
}

/// `Restarted deployment {name}`.
pub fn restart_summary(name: &String) -> (r: String)
    ensures
        r@ == "Restarted deployment "@ + name@,
{
    let mut s: String = String::from_str("Restarted deployment ");
    s.append(name.as_str());
    s
}

/// `Deleted deployment {name}`.
pub fn delete_deployment_summary(name: &String) -> (r: String)
    ensures
        r@ == "Deleted deployment "@ + name@,
{
    let mut s: String = String::from_str("Deleted deployment ");
    s.append(name.as_str());
    s
}

/// `Deleted pod {name}`.
pub fn delete_pod_summary(name: &String) -> (r: String)
    ensures
        r@ == "Deleted pod "@ + name@,
{
    let mut s: String = String::from_str("Deleted pod ");
    s.append(name.as_str());
    s
}

/// `Updated configmap {name}`.
pub fn update_configmap_summary(name: &String) -> (r: String)
    ensures
        r@ == "Updated configmap "@ + name@,
{
    let mut s: String = String::from_str("Updated configmap ");
    s.append(name.as_str());
    s
}

/// `Deleted job {name}`.
pub fn delete_job_summary(name: &String) -> (r: String)
    ensures
        r@ == "Deleted job "@ + name@,
{
    let mut s: String = String::from_str("Deleted job ");
    s.append(name.as_str());
    s
}

/// `Created job {job_name} from cronjob {cronjob_name}`.
pub fn trigger_summary(job_name: &String, cronjob_name: &String) -> (r: String)
    ensures
        r@ == "Created job "@ + job_name@ + " from cronjob "@ + cronjob_name@,
{
    let mut s: String = String::from_str("Created job ");
    s.append(job_name.as_str());
    s.append(" from cronjob ");
    s.append(cronjob_name.as_str());
    s
}

/// `Suspended cronjob {name}` or `Resumed cronjob {name}`.
pub fn suspend_summary(name: &String, suspend: bool) -> (r: String)
    ensures
        suspend ==> r@ == "Suspended cronjob "@ + name@,
        !suspend ==> r@ == "Resumed cronjob "@ + name@,
{
    let mut s: String = if suspend {
        String::from_str("Suspended cronjob ")
    } else {
        String::from_str("Resumed cronjob ")
    };
    s.append(name.as_str());
    s
}

} // verus!
