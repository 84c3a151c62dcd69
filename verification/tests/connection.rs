use kubespark::client::{KubeClient, ListPlan};
use kubespark::contexts::Kubeconfig;
use kubespark::error::ClientError;
use kubespark::kind::ResourceKind;

fn config() -> Kubeconfig {
    Kubeconfig {
        contexts: vec!["dev".to_string(), "prod".to_string()],
        current_context: Some("dev".to_string()),
    }
}

#[test]
fn a_new_client_is_disconnected() {
    let client: KubeClient<String> = KubeClient::new();
    assert!(!client.is_connected());
    assert!(matches!(client.get_client(), Err(ClientError::NotConnected)));
}

#[test]
fn listing_without_a_connection_is_not_connected_for_every_kind() {
    let client: KubeClient<String> = KubeClient::new();
    for kind in ResourceKind::all() {
        assert!(matches!(client.list_resources(kind, None), Err(ClientError::NotConnected)));
        assert!(matches!(
            client.list_resources(kind, Some("default")),
            Err(ClientError::NotConnected)
        ));
    }
    assert!(matches!(client.list_namespaces(), Err(ClientError::NotConnected)));
    assert!(matches!(client.get_pod_logs("default", "web-1", None), Err(ClientError::NotConnected)));
}

#[test]
fn connect_installs_the_handle() {
    let mut client: KubeClient<String> = KubeClient::new();
    assert!(client.connect(Ok("cluster-a".to_string())).is_ok());
    assert!(client.is_connected());
    assert_eq!(client.get_client().unwrap(), "cluster-a");
    assert!(client.connect(Ok("cluster-b".to_string())).is_ok());
    assert_eq!(client.get_client().unwrap(), "cluster-b");
}

#[test]
fn a_failed_connect_changes_nothing() {
    let mut client: KubeClient<String> = KubeClient::new();
    match client.connect(Err("no kubeconfig".to_string())) {
        Err(ClientError::ConnectFailed(reason)) => assert_eq!(reason, "no kubeconfig"),
        other => panic!("unexpected: {:?}", other),
    }
    assert!(!client.is_connected());
    client.connect(Ok("cluster-a".to_string())).unwrap();
    assert!(client.connect(Err("down".to_string())).is_err());
    assert_eq!(client.get_client().unwrap(), "cluster-a");
}

#[test]
fn an_unknown_context_is_not_found_and_keeps_the_handle() {
    let mut client: KubeClient<String> = KubeClient::new();
    client.connect(Ok("dev-cluster".to_string())).unwrap();
    let file = config();
    match client.connect_with_context("nonexistent", Ok(&file), Err("no such context".to_string())) {
        Err(ClientError::ContextNotFound(name)) => assert_eq!(name, "nonexistent"),
        other => panic!("unexpected: {:?}", other),
    }
    assert_eq!(client.get_client().unwrap(), "dev-cluster");
    match client.connect_with_context("nonexistent", Ok(&file), Ok("stray".to_string())) {
        Err(ClientError::ContextNotFound(name)) => assert_eq!(name, "nonexistent"),
        other => panic!("unexpected: {:?}", other),
    }
    assert_eq!(client.get_client().unwrap(), "dev-cluster");
    let mut fresh: KubeClient<String> = KubeClient::new();
    assert!(fresh.connect_with_context("nonexistent", Ok(&file), Err(String::new())).is_err());
    assert!(!fresh.is_connected());
}

#[test]
fn a_context_that_cannot_be_built_fails_and_keeps_the_handle() {
    let mut client: KubeClient<String> = KubeClient::new();
    client.connect(Ok("dev-cluster".to_string())).unwrap();
    let file = config();
    match client.connect_with_context("prod", Ok(&file), Err("certificate expired".to_string())) {
        Err(ClientError::ConnectFailed(reason)) => assert_eq!(reason, "certificate expired"),
        other => panic!("unexpected: {:?}", other),
    }
    assert_eq!(client.get_client().unwrap(), "dev-cluster");
    match client.connect_with_context("prod", Err("file not found".to_string()), Err("unused".to_string())) {
        Err(ClientError::ConnectFailed(reason)) => assert_eq!(reason, "file not found"),
        other => panic!("unexpected: {:?}", other),
    }
    assert_eq!(client.get_client().unwrap(), "dev-cluster");
}

#[test]
fn switching_context_replaces_the_cluster_that_is_listed() {
    let file = config();
    assert_eq!(KubeClient::<String>::list_contexts(Ok(&file)).unwrap(), vec!["dev", "prod"]);
    assert_eq!(KubeClient::<String>::get_current_context(Ok(&file)).unwrap(), "dev");
    let mut client: KubeClient<String> = KubeClient::new();
    client.connect(Ok("dev-cluster".to_string())).unwrap();
    client.connect_with_context("prod", Ok(&file), Ok("prod-cluster".to_string())).unwrap();
    match client.list_resources(ResourceKind::Node, None).unwrap() {
        ListPlan::Fetch(request) => {
            assert_eq!(request.client, "prod-cluster");
            assert_eq!(request.kind, ResourceKind::Node);
            assert_eq!(request.namespace, None);
        }
        ListPlan::Done(_) => panic!("nodes are fetched"),
    }
}

#[test]
fn context_directory_failures() {
    match KubeClient::<String>::list_contexts(Err("unreadable".to_string())) {
        Err(ClientError::ConfigUnreadable(reason)) => assert_eq!(reason, "unreadable"),
        other => panic!("unexpected: {:?}", other),
    }
    match KubeClient::<String>::get_current_context(Err("unreadable".to_string())) {
        Err(ClientError::ConfigUnreadable(reason)) => assert_eq!(reason, "unreadable"),
        other => panic!("unexpected: {:?}", other),
    }
    let unset = Kubeconfig { contexts: vec!["dev".to_string()], current_context: None };
    assert!(matches!(
        KubeClient::<String>::get_current_context(Ok(&unset)),
        Err(ClientError::NoCurrentContext)
    ));
    let empty = Kubeconfig { contexts: vec![], current_context: None };
    assert!(KubeClient::<String>::list_contexts(Ok(&empty)).unwrap().is_empty());
    assert!(!empty.has_context("dev"));
    assert!(unset.has_context("dev"));
    assert!(!unset.has_context("de"));
}

#[test]
fn the_scope_of_a_listing() {
    let mut client: KubeClient<u32> = KubeClient::new();
    client.connect(Ok(7)).unwrap();
    for kind in ResourceKind::all() {
        let plan = client.list_resources(kind, Some("team-a")).unwrap();
        match kind {
            ResourceKind::PersistentVolume | ResourceKind::PersistentVolumeClaim => match plan {
                ListPlan::Done(rows) => assert!(rows.is_empty()),
                ListPlan::Fetch(_) => panic!("no call for {:?}", kind),
            },
            ResourceKind::Namespace | ResourceKind::Node => match plan {
                ListPlan::Fetch(request) => {
                    assert_eq!(*request.client, 7);
                    assert_eq!(request.kind, kind);
                    assert_eq!(request.namespace, None);
                }
                ListPlan::Done(_) => panic!("a call for {:?}", kind),
            },
            _ => match plan {
                ListPlan::Fetch(request) => {
                    assert_eq!(request.kind, kind);
                    assert_eq!(request.namespace, Some("team-a".to_string()));
                }
                ListPlan::Done(_) => panic!("a call for {:?}", kind),
            },
        }
        if let ListPlan::Fetch(request) = client.list_resources(kind, None).unwrap() {
            assert_eq!(request.namespace, None);
        }
    }
    let request = client.list_namespaces().unwrap();
    assert_eq!(request.kind, ResourceKind::Namespace);
    assert_eq!(request.namespace, None);
}

#[test]
fn two_listings_of_one_connection_both_get_their_plan() {
    let mut client: KubeClient<String> = KubeClient::new();
    client.connect(Ok("cluster".to_string())).unwrap();
    let first = client.list_resources(ResourceKind::Pod, None);
    let second = client.list_resources(ResourceKind::Pod, None);
    assert!(matches!(first, Ok(ListPlan::Fetch(_))));
    assert!(matches!(second, Ok(ListPlan::Fetch(_))));
}

#[test]
fn a_log_request_names_pod_and_container() {
    let mut client: KubeClient<String> = KubeClient::new();
    client.connect(Ok("cluster".to_string())).unwrap();
    let request = client.get_pod_logs("default", "web-1", Some("sidecar")).unwrap();
    assert_eq!(request.client, "cluster");
    assert_eq!(request.namespace, "default");
    assert_eq!(request.pod_name, "web-1");
    assert_eq!(request.container, Some("sidecar".to_string()));
    let whole = client.get_pod_logs("default", "web-1", None).unwrap();
    assert_eq!(whole.container, None);
}

#[test]
fn error_messages() {
    assert_eq!(ClientError::NotConnected.message(), "Not connected to Kubernetes cluster");
    assert_eq!(ClientError::NoCurrentContext.message(), "No current context set");
    assert_eq!(
        ClientError::ContextNotFound("staging".to_string()).message(),
        "Context not found: staging"
    );
    assert_eq!(
        ClientError::ConfigUnreadable("no such file".to_string()).message(),
        "Failed to read kubeconfig: no such file"
    );
    assert_eq!(
        ClientError::ConnectFailed("tls".to_string()).message(),
        "Failed to create Kubernetes client: tls"
    );
    assert_eq!(
        ClientError::RemoteCallFailed("403".to_string()).message(),
        "Remote call failed: 403"
    );
}
