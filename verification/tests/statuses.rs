use kubespark::objects::{
    ConfigMap, ContainerStatus, CronJob, CronJobSpec, DaemonSet, DaemonSetStatus, Deployment,
    DeploymentStatus, Ingress, IngressSpec, Job, JobStatus, Namespace, NamespaceStatus, Node,
    NodeStatus, Pod, PodStatus, ReplicaSet, ReplicaSetStatus, Secret, Service, ServiceSpec,
    StatefulSet, StatefulSetStatus, Summarize,
};
use kubespark::status::{find_ready, format_keys, format_ratio, text_or_else, NodeCondition};
use kubespark::kind::ResourceKind;

fn condition(type_: &str, status: &str) -> NodeCondition {
    NodeCondition { type_: type_.to_string(), status: status.to_string() }
}

#[test]
fn deployment_two_of_three() {
    let deployment = Deployment {
        status: Some(DeploymentStatus { ready_replicas: Some(2), replicas: Some(3) }),
    };
    assert_eq!(deployment.status(), "2/3");
}

#[test]
fn deployment_counts_absent_are_zero() {
    let deployment =
        Deployment { status: Some(DeploymentStatus { ready_replicas: None, replicas: None }) };
    assert_eq!(deployment.status(), "0/0");
    let half = Deployment { status: Some(DeploymentStatus { ready_replicas: None, replicas: Some(4) }) };
    assert_eq!(half.status(), "0/4");
}

#[test]
fn deployment_without_status_is_zero_of_zero() {
    assert_eq!(Deployment { status: None }.status(), "0/0");
}

#[test]
fn namespace_and_pod_show_their_phase() {
    let active = Namespace { status: Some(NamespaceStatus { phase: Some("Active".to_string()) }) };
    assert_eq!(active.status(), "Active");
    assert_eq!(Namespace { status: Some(NamespaceStatus { phase: None }) }.status(), "Unknown");
    assert_eq!(Namespace { status: None }.status(), "Unknown");
    let running = Pod {
        status: Some(PodStatus { phase: Some("Running".to_string()), container_statuses: None }),
    };
    assert_eq!(running.status(), "Running");
    assert_eq!(Pod { status: None }.status(), "Unknown");
    assert_eq!(
        Pod { status: Some(PodStatus { phase: None, container_statuses: None }) }.status(),
        "Unknown"
    );
}

#[test]
fn pod_restarts_are_totalled() {
    let pod = Pod {
        status: Some(PodStatus {
            phase: None,
            container_statuses: Some(vec![
                ContainerStatus { restart_count: 2 },
                ContainerStatus { restart_count: 0 },
                ContainerStatus { restart_count: 5 },
            ]),
        }),
    };
    assert_eq!(pod.restart_count(), Some(7));
    assert_eq!(Pod { status: None }.restart_count(), Some(0));
    let full = Pod {
        status: Some(PodStatus {
            phase: None,
            container_statuses: Some(vec![
                ContainerStatus { restart_count: i32::MAX },
                ContainerStatus { restart_count: 1 },
            ]),
        }),
    };
    assert_eq!(full.restart_count(), Some(i32::MAX));
    assert_eq!(Deployment { status: None }.restart_count(), None);
}

#[test]
fn replica_kinds_show_ready_over_desired() {
    let set = StatefulSet { status: Some(StatefulSetStatus { ready_replicas: Some(1), replicas: 3 }) };
    assert_eq!(set.status(), "1/3");
    let unset = StatefulSet { status: Some(StatefulSetStatus { ready_replicas: None, replicas: 3 }) };
    assert_eq!(unset.status(), "0/3");
    assert_eq!(StatefulSet { status: None }.status(), "0/0");
    let replicas = ReplicaSet { status: Some(ReplicaSetStatus { ready_replicas: Some(10), replicas: 12 }) };
    assert_eq!(replicas.status(), "10/12");
    assert_eq!(ReplicaSet { status: None }.status(), "0/0");
    let daemons = DaemonSet {
        status: Some(DaemonSetStatus { number_ready: 4, desired_number_scheduled: 5 }),
    };
    assert_eq!(daemons.status(), "4/5");
    assert_eq!(DaemonSet { status: None }.status(), "Unknown");
}

#[test]
fn job_shows_succeeded_over_active() {
    let job = Job { status: Some(JobStatus { succeeded: Some(1), active: None }) };
    assert_eq!(job.status(), "1/0");
    assert_eq!(Job { status: None }.status(), "Unknown");
}

#[test]
fn service_cronjob_secret_ingress_show_a_field_or_their_default() {
    let service = Service { spec: Some(ServiceSpec { type_: Some("ClusterIP".to_string()) }) };
    assert_eq!(service.status(), "ClusterIP");
    assert_eq!(Service { spec: Some(ServiceSpec { type_: None }) }.status(), "Unknown");
    assert_eq!(Service { spec: None }.status(), "Unknown");
    let cron = CronJob { spec: Some(CronJobSpec { schedule: "*/5 * * * *".to_string() }) };
    assert_eq!(cron.status(), "*/5 * * * *");
    assert_eq!(CronJob { spec: None }.status(), "Unknown");
    assert_eq!(Secret { type_: None }.status(), "Opaque");
    assert_eq!(Secret { type_: Some("kubernetes.io/tls".to_string()) }.status(), "kubernetes.io/tls");
    assert_eq!(Ingress { spec: None }.status(), "default");
    assert_eq!(Ingress { spec: Some(IngressSpec { ingress_class_name: None }) }.status(), "default");
    let nginx = Ingress { spec: Some(IngressSpec { ingress_class_name: Some("nginx".to_string()) }) };
    assert_eq!(nginx.status(), "nginx");
}

#[test]
fn config_map_counts_its_keys() {
    assert_eq!(ConfigMap { data_entries: Some(3) }.status(), "3 keys");
    assert_eq!(ConfigMap { data_entries: Some(0) }.status(), "0 keys");
    assert_eq!(ConfigMap { data_entries: None }.status(), "0 keys");
    assert_eq!(format_keys(12), "12 keys");
}

#[test]
fn node_shows_its_ready_condition() {
    let node = Node {
        status: Some(NodeStatus {
            conditions: Some(vec![
                condition("MemoryPressure", "False"),
                condition("Ready", "True"),
                condition("Ready", "False"),
            ]),
        }),
    };
    assert_eq!(node.status(), "True");
    let unready = Node {
        status: Some(NodeStatus { conditions: Some(vec![condition("DiskPressure", "False")]) }),
    };
    assert_eq!(unready.status(), "Unknown");
    assert_eq!(Node { status: Some(NodeStatus { conditions: None }) }.status(), "Unknown");
    assert_eq!(Node { status: None }.status(), "Unknown");
    assert_eq!(find_ready(&vec![condition("ready", "True")]), None);
    assert_eq!(find_ready(&vec![]), None);
}

#[test]
fn each_kind_of_object_names_its_kind() {
    assert_eq!(Namespace::kind(), ResourceKind::Namespace);
    assert_eq!(Pod::kind(), ResourceKind::Pod);
    assert_eq!(Deployment::kind(), ResourceKind::Deployment);
    assert_eq!(StatefulSet::kind(), ResourceKind::StatefulSet);
    assert_eq!(DaemonSet::kind(), ResourceKind::DaemonSet);
    assert_eq!(ReplicaSet::kind(), ResourceKind::ReplicaSet);
    assert_eq!(Service::kind(), ResourceKind::Service);
    assert_eq!(Job::kind(), ResourceKind::Job);
    assert_eq!(CronJob::kind(), ResourceKind::CronJob);
    assert_eq!(ConfigMap::kind(), ResourceKind::ConfigMap);
    assert_eq!(Secret::kind(), ResourceKind::Secret);
    assert_eq!(Ingress::kind(), ResourceKind::Ingress);
    assert_eq!(Node::kind(), ResourceKind::Node);
}

#[test]
fn ratios_and_fallbacks() {
    assert_eq!(format_ratio(0, 0), "0/0");
    assert_eq!(format_ratio(-1, 20), "-1/20");
    assert_eq!(format_ratio(i32::MIN, i32::MAX), "-2147483648/2147483647");
    assert_eq!(text_or_else(&None, "Unknown"), "Unknown");
    assert_eq!(text_or_else(&Some("Bound".to_string()), "Unknown"), "Bound");
}
