use kubespark::kind::ResourceKind;

#[test]
fn all_lists_every_kind_once() {
    let kinds = ResourceKind::all();
    assert_eq!(kinds.len(), 15);
    for (i, a) in kinds.iter().enumerate() {
        for b in kinds.iter().skip(i + 1) {
            assert_ne!(a, b);
        }
    }
    assert_eq!(kinds[0], ResourceKind::Namespace);
    assert_eq!(kinds[14], ResourceKind::Node);
}

#[test]
fn display_names() {
    let expected = [
        "Namespaces", "Pods", "Deployments", "StatefulSets", "DaemonSets", "ReplicaSets",
        "Services", "Jobs", "CronJobs", "ConfigMaps", "Secrets", "Ingresses",
        "PersistentVolumes", "PersistentVolumeClaims", "Nodes",
    ];
    let kinds = ResourceKind::all();
    for (kind, name) in kinds.iter().zip(expected.iter()) {
        assert_eq!(kind.display_name(), *name);
    }
}

#[test]
fn categories() {
    let expected = [
        "Cluster", "Workloads", "Workloads", "Workloads", "Workloads", "Workloads", "Network",
        "Workloads", "Workloads", "Config", "Config", "Network", "Storage", "Storage", "Cluster",
    ];
    let kinds = ResourceKind::all();
    for (kind, category) in kinds.iter().zip(expected.iter()) {
        assert_eq!(kind.category(), *category);
    }
}

#[test]
fn cluster_scoped_kinds() {
    for kind in ResourceKind::all() {
        let cluster = matches!(
            kind,
            ResourceKind::Namespace | ResourceKind::Node | ResourceKind::PersistentVolume
        );
        assert_eq!(kind.is_namespaced(), !cluster);
    }
}

#[test]
fn sidebar_sections() {
    let sections = kubespark::kind::categorize_resources();
    let labels: Vec<&str> = sections.iter().map(|(label, _)| label.as_str()).collect();
    assert_eq!(labels, vec!["Cluster", "Workloads", "Network", "Config", "Storage"]);
    assert_eq!(sections[0].1, vec![ResourceKind::Namespace, ResourceKind::Node]);
    assert_eq!(
        sections[1].1,
        vec![
            ResourceKind::Pod,
            ResourceKind::Deployment,
            ResourceKind::StatefulSet,
            ResourceKind::DaemonSet,
            ResourceKind::ReplicaSet,
            ResourceKind::Job,
            ResourceKind::CronJob,
        ]
    );
    assert_eq!(sections[2].1, vec![ResourceKind::Service, ResourceKind::Ingress]);
    assert_eq!(sections[3].1, vec![ResourceKind::ConfigMap, ResourceKind::Secret]);
    assert_eq!(
        sections[4].1,
        vec![ResourceKind::PersistentVolume, ResourceKind::PersistentVolumeClaim]
    );
    let total: usize = sections.iter().map(|(_, kinds)| kinds.len()).sum();
    assert_eq!(total, ResourceKind::all().len());
}

#[test]
fn every_kind_has_the_category_of_its_section() {
    for kind in ResourceKind::all() {
        assert_eq!(kind.category_of().name(), kind.category());
        assert!(kubespark::kind::kinds_in(kind.category_of()).contains(&kind));
    }
    assert_eq!(kubespark::kind::Category::all().len(), 5);
}
