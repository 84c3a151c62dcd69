//! What the aggregator reads of each kind of remote object: the metadata
//! all kinds share, and per kind the few fields its status is derived from.

use vstd::prelude::*;
use crate::age::Timestamp;
use crate::kind::ResourceKind;
use crate::status::{
    count_or_zero, find_ready, format_keys, format_ratio, keys_text, or_zero, ratio_text,
    ready_status, text_or, text_or_else, NodeCondition,
};

verus! {

/// The metadata every kind of object carries.
#[derive(Debug, Clone)]
pub struct ObjectMeta {
    pub name: Option<String>,
    pub namespace: Option<String>,
    pub creation_timestamp: Option<Timestamp>,
}

/// One object as a listing returned it: its metadata, the fields of its
/// kind, and the whole object as a structured document (`None` where it
/// could not be turned into one).
#[derive(Debug, Clone)]
pub struct Remote<T> {
    pub metadata: ObjectMeta,
    pub object: T,
    pub document: Option<serde_json::Value>,
}

/// A kind of object from which a list row can be derived.
pub trait Summarize {
    /// The kind the rows of these objects carry.
    spec fn row_kind() -> ResourceKind;

    /// The text of the status column.
    spec fn status_text(&self) -> Seq<char>;

    /// The restart total of the restart column, for kinds that have one.
    spec fn restart_total(&self) -> Option<i32>;

    /// The kind the rows of these objects carry.
    fn kind() -> (kind: ResourceKind)
        ensures
            kind == Self::row_kind(),
    ;

    /// Derives the text of the status column.
    fn status(&self) -> (text: String)
        ensures
            text@ == self.status_text(),
    ;

    /// Derives the restart total, for kinds that have one.
    fn restart_count(&self) -> (total: Option<i32>)
        ensures
            total == self.restart_total(),
    ;
}

/// The part of a namespace's status that is shown.
#[derive(Debug, Clone)]
pub struct NamespaceStatus {
    pub phase: Option<String>,
}

/// A namespace. Its status column is its phase, or `Unknown`.
#[derive(Debug, Clone)]
pub struct Namespace {
    pub status: Option<NamespaceStatus>,
}

impl Summarize for Namespace {
    open spec fn row_kind() -> ResourceKind {
        ResourceKind::Namespace
    }

    open spec fn status_text(&self) -> Seq<char> {
        match self.status {
            Some(status) => text_or(status.phase, "Unknown"@),
            None => "Unknown"@,
        }
    }

    open spec fn restart_total(&self) -> Option<i32> {
        None
    }

    fn kind() -> (kind: ResourceKind) {
        ResourceKind::Namespace
    }

    fn status(&self) -> (text: String) {
        match &self.status {
            Some(status) => text_or_else(&status.phase, "Unknown"),
            None => String::from_str("Unknown"),
        }
    }

    fn restart_count(&self) -> (total: Option<i32>) {
        None
    }
}

/// What one container of a pod reports.
#[derive(Debug, Clone)]
pub struct ContainerStatus {
    pub restart_count: i32,
}

/// The part of a pod's status that is shown.
#[derive(Debug, Clone)]
pub struct PodStatus {
    pub phase: Option<String>,
    pub container_statuses: Option<Vec<ContainerStatus>>,
}

/// A pod. Its status column is its phase, or `Unknown`; its restart column
/// is the total over its containers.
#[derive(Debug, Clone)]
pub struct Pod {
    pub status: Option<PodStatus>,
}

/// The restarts of all the given containers together.
pub open spec fn restart_sum(containers: Seq<ContainerStatus>) -> int
    decreases containers.len(),
{
    if containers.len() == 0 {
        0
    } else {
        restart_sum(containers.drop_last()) + containers.last().restart_count
    }
}

/// The nearest value an `i32` can hold.
pub open spec fn clamp_i32(n: int) -> i32 {
    if n > i32::MAX {
        i32::MAX
    } else if n < i32::MIN {
        i32::MIN
    } else {
        n as i32
    }
}

/// The containers a pod reports, none where it reports no status.
pub open spec fn pod_containers(pod: Pod) -> Seq<ContainerStatus> {
    match pod.status {
        Some(status) => match status.container_statuses {
            Some(containers) => containers@,
            None => Seq::empty(),
        },
        None => Seq::empty(),
    }
}

/// Adds up the restarts of the given containers; a total beyond what an
/// `i32` holds is reported as the nearest value it does hold.
pub fn total_restarts(containers: &Vec<ContainerStatus>) -> (total: i32)
    ensures
        total == clamp_i32(restart_sum(containers@)),
{
    let mut sum: i128 = 0;
    let mut i: usize = 0;
    while i < containers.len()
        invariant
            i <= containers.len(),
            sum == restart_sum(containers@.take(i as int)),
            -2_147_483_648 * i <= sum <= 2_147_483_647 * i,
        decreases containers.len() - i,
    {
        proof {
            assert(containers@.take(i + 1).drop_last() =~= containers@.take(i as int));
            assert(containers@.take(i + 1).last() == containers@[i as int]);
        }
        sum = sum + containers[i].restart_count as i128;
        i += 1;
    }
    proof {
        assert(containers@.take(i as int) =~= containers@);
    }
    if sum > 2_147_483_647 {
        i32::MAX
    } else if sum < -2_147_483_648 {
        i32::MIN
    } else {
        sum as i32
    }
}

impl Summarize for Pod {
    open spec fn row_kind() -> ResourceKind {
        ResourceKind::Pod
    }

    open spec fn status_text(&self) -> Seq<char> {
        match self.status {
            Some(status) => text_or(status.phase, "Unknown"@),
            None => "Unknown"@,
        }
    }

    open spec fn restart_total(&self) -> Option<i32> {
        Some(clamp_i32(restart_sum(pod_containers(*self))))
    }

    fn kind() -> (kind: ResourceKind) {
        ResourceKind::Pod
    }

    fn status(&self) -> (text: String) {
        match &self.status {
            Some(status) => text_or_else(&status.phase, "Unknown"),
            None => String::from_str("Unknown"),
        }
    }

    fn restart_count(&self) -> (total: Option<i32>) {
        match &self.status {
            Some(status) => match &status.container_statuses {
                Some(containers) => Some(total_restarts(containers)),
                None => Some(0),
            },
            None => Some(0),
        }
    }
}

/// The replica counts a deployment reports.
#[derive(Debug, Clone)]
pub struct DeploymentStatus {
    pub ready_replicas: Option<i32>,
    pub replicas: Option<i32>,
}

/// A deployment. Its status column is `ready/desired`, a count that is not
/// reported written as zero; a deployment that reports no status at all
/// shows `0/0`.
#[derive(Debug, Clone)]
pub struct Deployment {
    pub status: Option<DeploymentStatus>,
}

impl Summarize for Deployment {
    open spec fn row_kind() -> ResourceKind {
        ResourceKind::Deployment
    }

    open spec fn status_text(&self) -> Seq<char> {
        match self.status {
            Some(status) => ratio_text(count_or_zero(status.ready_replicas), count_or_zero(status.replicas)),
            None => ratio_text(0, 0),
        }
    }

    open spec fn restart_total(&self) -> Option<i32> {
        None
    }

    fn kind() -> (kind: ResourceKind) {
        ResourceKind::Deployment
    }

    fn status(&self) -> (text: String) {
        match &self.status {
            Some(status) => format_ratio(or_zero(status.ready_replicas), or_zero(status.replicas)),
            None => format_ratio(0, 0),
        }
    }

    fn restart_count(&self) -> (total: Option<i32>) {
        None
    }
}

/// The replica counts a stateful set reports.
#[derive(Debug, Clone)]
pub struct StatefulSetStatus {
    pub ready_replicas: Option<i32>,
    pub replicas: i32,
}

/// A stateful set. Its status column is `ready/desired`, a count that is
/// not reported written as zero; a set that reports no status at all shows
/// `0/0`.
#[derive(Debug, Clone)]
pub struct StatefulSet {
    pub status: Option<StatefulSetStatus>,
}

impl Summarize for StatefulSet {
    open spec fn row_kind() -> ResourceKind {
        ResourceKind::StatefulSet
    }

    open spec fn status_text(&self) -> Seq<char> {
        match self.status {
            Some(status) => ratio_text(count_or_zero(status.ready_replicas), status.replicas as int),
            None => ratio_text(0, 0),
        }
    }

    open spec fn restart_total(&self) -> Option<i32> {
        None
    }

    fn kind() -> (kind: ResourceKind) {
        ResourceKind::StatefulSet
    }

    fn status(&self) -> (text: String) {
        match &self.status {
            Some(status) => format_ratio(or_zero(status.ready_replicas), status.replicas),
            None => format_ratio(0, 0),
        }
    }

    fn restart_count(&self) -> (total: Option<i32>) {
        None
    }
}

/// The pod counts a daemon set reports.
#[derive(Debug, Clone)]
pub struct DaemonSetStatus {
    pub number_ready: i32,
    pub desired_number_scheduled: i32,
}

/// A daemon set. Its status column is `ready/scheduled`, or `Unknown` where
/// it reports no status.
#[derive(Debug, Clone)]
pub struct DaemonSet {
    pub status: Option<DaemonSetStatus>,
}

impl Summarize for DaemonSet {
    open spec fn row_kind() -> ResourceKind {
        ResourceKind::DaemonSet
    }

    open spec fn status_text(&self) -> Seq<char> {
        match self.status {
            Some(status) => ratio_text(status.number_ready as int, status.desired_number_scheduled as int),
            None => "Unknown"@,
        }
    }

    open spec fn restart_total(&self) -> Option<i32> {
        None
    }

    fn kind() -> (kind: ResourceKind) {
        ResourceKind::DaemonSet
    }

    fn status(&self) -> (text: String) {
        match &self.status {
            Some(status) => format_ratio(status.number_ready, status.desired_number_scheduled),
            None => String::from_str("Unknown"),
        }
    }

    fn restart_count(&self) -> (total: Option<i32>) {
        None
    }
}

/// The replica counts a replica set reports.
#[derive(Debug, Clone)]
pub struct ReplicaSetStatus {
    pub ready_replicas: Option<i32>,
    pub replicas: i32,
}

/// A replica set. Its status column is `ready/desired`, a count that is
/// not reported written as zero; a set that reports no status at all shows
/// `0/0`.
#[derive(Debug, Clone)]
pub struct ReplicaSet {
    pub status: Option<ReplicaSetStatus>,
}

impl Summarize for ReplicaSet {
    open spec fn row_kind() -> ResourceKind {
        ResourceKind::ReplicaSet
    }

    open spec fn status_text(&self) -> Seq<char> {
        match self.status {
            Some(status) => ratio_text(count_or_zero(status.ready_replicas), status.replicas as int),
            None => ratio_text(0, 0),
        }
    }

    open spec fn restart_total(&self) -> Option<i32> {
        None
    }

    fn kind() -> (kind: ResourceKind) {
        ResourceKind::ReplicaSet
    }

    fn status(&self) -> (text: String) {
        match &self.status {
            Some(status) => format_ratio(or_zero(status.ready_replicas), status.replicas),
            None => format_ratio(0, 0),
        }
    }

    fn restart_count(&self) -> (total: Option<i32>) {
        None
    }
}

/// The part of a service's specification that is shown.
#[derive(Debug, Clone)]
pub struct ServiceSpec {
    pub type_: Option<String>,
}

/// A service. Its status column is its type, or `Unknown`.
#[derive(Debug, Clone)]
pub struct Service {
    pub spec: Option<ServiceSpec>,
}

impl Summarize for Service {
    open spec fn row_kind() -> ResourceKind {
        ResourceKind::Service
    }

    open spec fn status_text(&self) -> Seq<char> {
        match self.spec {
            Some(spec) => text_or(spec.type_, "Unknown"@),
            None => "Unknown"@,
        }
    }

    open spec fn restart_total(&self) -> Option<i32> {
        None
    }

    fn kind() -> (kind: ResourceKind) {
        ResourceKind::Service
    }

    fn status(&self) -> (text: String) {
        match &self.spec {
            Some(spec) => text_or_else(&spec.type_, "Unknown"),
            None => String::from_str("Unknown"),
        }
    }

    fn restart_count(&self) -> (total: Option<i32>) {
        None
    }
}

/// The pod counts a job reports.
#[derive(Debug, Clone)]
pub struct JobStatus {
    pub succeeded: Option<i32>,
    pub active: Option<i32>,
}

/// A job. Its status column is `succeeded/active`, a count that is not
/// reported written as zero, or `Unknown` where it reports no status.
#[derive(Debug, Clone)]
pub struct Job {
    pub status: Option<JobStatus>,
}

impl Summarize for Job {
    open spec fn row_kind() -> ResourceKind {
        ResourceKind::Job
    }

    open spec fn status_text(&self) -> Seq<char> {
        match self.status {
            Some(status) => ratio_text(count_or_zero(status.succeeded), count_or_zero(status.active)),
            None => "Unknown"@,
        }
    }

    open spec fn restart_total(&self) -> Option<i32> {
        None
    }

    fn kind() -> (kind: ResourceKind) {
        ResourceKind::Job
    }

    fn status(&self) -> (text: String) {
        match &self.status {
            Some(status) => format_ratio(or_zero(status.succeeded), or_zero(status.active)),
            None => String::from_str("Unknown"),
        }
    }

    fn restart_count(&self) -> (total: Option<i32>) {
        None
    }
}

/// The part of a cron job's specification that is shown.
#[derive(Debug, Clone)]
pub struct CronJobSpec {
    pub schedule: String,
}

/// A cron job. Its status column is its schedule, or `Unknown` where it has
/// no specification.
#[derive(Debug, Clone)]
pub struct CronJob {
    pub spec: Option<CronJobSpec>,
}

impl Summarize for CronJob {
    open spec fn row_kind() -> ResourceKind {
        ResourceKind::CronJob
    }

    open spec fn status_text(&self) -> Seq<char> {
        match self.spec {
            Some(spec) => spec.schedule@,
            None => "Unknown"@,
        }
    }

    open spec fn restart_total(&self) -> Option<i32> {
        None
    }

    fn kind() -> (kind: ResourceKind) {
        ResourceKind::CronJob
    }

    fn status(&self) -> (text: String) {
        match &self.spec {
            Some(spec) => spec.schedule.clone(),
            None => String::from_str("Unknown"),
        }
    }

    fn restart_count(&self) -> (total: Option<i32>) {
        None
    }
}

/// A config map. Its status column is the number of its data entries,
/// `data_entries`, written as `N keys`; a map without data has none.
#[derive(Debug, Clone)]
pub struct ConfigMap {
    pub data_entries: Option<usize>,
}

impl Summarize for ConfigMap {
    open spec fn row_kind() -> ResourceKind {
        ResourceKind::ConfigMap
    }

    open spec fn status_text(&self) -> Seq<char> {
        match self.data_entries {
            Some(entries) => keys_text(entries as int),
            None => keys_text(0),
        }
    }

    open spec fn restart_total(&self) -> Option<i32> {
        None
    }

    fn kind() -> (kind: ResourceKind) {
        ResourceKind::ConfigMap
    }

    fn status(&self) -> (text: String) {
        match self.data_entries {
            Some(entries) => format_keys(entries),
            None => format_keys(0),
        }
    }

    fn restart_count(&self) -> (total: Option<i32>) {
        None
    }
}

/// A secret. Its status column is its type, `Opaque` where none is given.
#[derive(Debug, Clone)]
pub struct Secret {
    pub type_: Option<String>,
}

impl Summarize for Secret {
    open spec fn row_kind() -> ResourceKind {
        ResourceKind::Secret
    }

    open spec fn status_text(&self) -> Seq<char> {
        text_or(self.type_, "Opaque"@)
    }

    open spec fn restart_total(&self) -> Option<i32> {
        None
    }

    fn kind() -> (kind: ResourceKind) {
        ResourceKind::Secret
    }

    fn status(&self) -> (text: String) {
        text_or_else(&self.type_, "Opaque")
    }

    fn restart_count(&self) -> (total: Option<i32>) {
        None
    }
}

/// The part of an ingress's specification that is shown.
#[derive(Debug, Clone)]
pub struct IngressSpec {
    pub ingress_class_name: Option<String>,
}

/// An ingress. Its status column is its class name, `default` where none
/// is given.
#[derive(Debug, Clone)]
pub struct Ingress {
    pub spec: Option<IngressSpec>,
}

impl Summarize for Ingress {
    open spec fn row_kind() -> ResourceKind {
        ResourceKind::Ingress
    }

    open spec fn status_text(&self) -> Seq<char> {
        match self.spec {
            Some(spec) => text_or(spec.ingress_class_name, "default"@),
            None => "default"@,
        }
    }

    open spec fn restart_total(&self) -> Option<i32> {
        None
    }

    fn kind() -> (kind: ResourceKind) {
        ResourceKind::Ingress
    }

    fn status(&self) -> (text: String) {
        match &self.spec {
            Some(spec) => text_or_else(&spec.ingress_class_name, "default"),
            None => String::from_str("default"),
        }
    }

    fn restart_count(&self) -> (total: Option<i32>) {
        None
    }
}

/// The part of a node's status that is shown.
#[derive(Debug, Clone)]
pub struct NodeStatus {
    pub conditions: Option<Vec<NodeCondition>>,
}

/// A node. Its status column is the status of its `Ready` condition, or
/// `Unknown` where it reports none.
#[derive(Debug, Clone)]
pub struct Node {
    pub status: Option<NodeStatus>,
}

/// The conditions a node reports, none where it reports no status.
pub open spec fn node_conditions(node: Node) -> Seq<NodeCondition> {
    match node.status {
        Some(status) => match status.conditions {
            Some(conditions) => conditions@,
            None => Seq::empty(),
        },
        None => Seq::empty(),
    }
}

impl Summarize for Node {
    open spec fn row_kind() -> ResourceKind {
        ResourceKind::Node
    }

    open spec fn status_text(&self) -> Seq<char> {
        match ready_status(node_conditions(*self)) {
            Some(text) => text,
            None => "Unknown"@,
        }
    }

    open spec fn restart_total(&self) -> Option<i32> {
        None
    }

    fn kind() -> (kind: ResourceKind) {
        ResourceKind::Node
    }

    fn status(&self) -> (text: String) {
        let found = match &self.status {
            Some(status) => match &status.conditions {
                Some(conditions) => find_ready(conditions),
                None => None,
            },
            None => None,
        };
        match found {
            Some(text) => text,
            None => String::from_str("Unknown"),
        }
    }

    fn restart_count(&self) -> (total: Option<i32>) {
        None
    }
}

} // verus!
