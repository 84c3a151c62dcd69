//! The connection to a cluster: at most one live handle, replaced whole by
//! each successful connect, and what to ask the cluster for each request.
//!
//! The client never talks to a cluster itself. Its caller does the network
//! work, outside any lock, and hands the outcome in; the client decides what
//! that outcome means for the installed handle and for the caller.

use vstd::prelude::*;
use crate::contexts::{name_texts, Kubeconfig};
use crate::error::ClientError;
use crate::kind::ResourceKind;
use crate::resources::{text_of, ResourceItem};

verus! {

/// The holder of the connection handle. `H` is the live client of a
/// cluster; the holder stores it and hands it out, and never looks inside.
pub struct KubeClient<H> {
    client: Option<H>,
}

/// One list call to issue: every object of `kind`, inside `namespace` or,
/// where that is `None`, in the whole cluster. No selector, no paging.
pub struct ListRequest<'a, H> {
    pub client: &'a H,
    pub kind: ResourceKind,
    pub namespace: Option<String>,
}

/// What a listing of some kind takes.
pub enum ListPlan<'a, H> {
    /// One call to the cluster.
    Fetch(ListRequest<'a, H>),
    /// No call: the list is already known.
    Done(Vec<ResourceItem>),
}

/// One log call to issue: the log of a pod, of one of its containers where
/// `container` names it.
pub struct LogRequest<'a, H> {
    pub client: &'a H,
    pub namespace: String,
    pub pod_name: String,
    pub container: Option<String>,
}

/// The namespace a listing of `kind` is confined to when the caller asks
/// for `namespace`: that namespace for kinds that live in one, none for
/// kinds that belong to the cluster.
pub open spec fn list_scope(kind: ResourceKind, namespace: Option<Seq<char>>) -> Option<
    Seq<char>,
> {
    if kind.namespaced() {
        namespace
    } else {
        None
    }
}

/// The text of an optional string slice.
pub open spec fn slice_text(value: Option<&str>) -> Option<Seq<char>> {
    match value {
        Some(text) => Some(text@),
        None => None,
    }
}

/// An owned copy of an optional string slice.
fn owned(value: Option<&str>) -> (copy: Option<String>)
    ensures
        text_of(copy) == slice_text(value),
{
    match value {
        Some(text) => Some(String::from_str(text)),
        None => None,
    }
}

impl<H> View for KubeClient<H> {
    type V = Option<H>;

    /// The installed handle, if any.
    closed spec fn view(&self) -> Option<H> {
        self.client
    }
}

impl<H> KubeClient<H> {
    /// A client with no handle installed.
    pub fn new() -> (client: Self)
        ensures
            client@ is None,
    {
        KubeClient { client: None }
    }

    /// Whether a handle is installed.
    pub fn is_connected(&self) -> (connected: bool)
        ensures
            connected == (self@ is Some),
    {
        self.client.is_some()
    }

    /// The installed handle, or `NotConnected`.
    pub fn get_client(&self) -> (handle: Result<&H, ClientError>)
        ensures
            match self@ {
                Some(installed) => handle matches Ok(h) && *h == installed,
                None => handle matches Err(ClientError::NotConnected),
            },
    {
        match &self.client {
            Some(handle) => Ok(handle),
            None => Err(ClientError::NotConnected),
        }
    }

    /// Takes the outcome of building a handle from the ambient
    /// configuration. A handle is installed in place of any earlier one; a
    /// failure is reported as `ConnectFailed` and changes nothing.
    pub fn connect(&mut self, built: Result<H, String>) -> (done: Result<(), ClientError>)
        ensures
            match built {
                Ok(handle) => done is Ok && final(self)@ == Some(handle),
                Err(reason) => done matches Err(ClientError::ConnectFailed(text)) && text
                    == reason && final(self)@ == old(self)@,
            },
    {
        match built {
            Ok(handle) => {
                self.client = Some(handle);
                Ok(())
            },
            Err(reason) => Err(ClientError::ConnectFailed(reason)),
        }
    }

    /// Takes the outcome of building a handle for the context
    /// `context_name` of the kubeconfig `config`. The handle is installed,
    /// in place of any earlier one, only if the kubeconfig was read, offers
    /// that context, and the handle was built. Otherwise nothing changes:
    /// an unreadable kubeconfig and a handle that could not be built are
    /// `ConnectFailed`, a context the kubeconfig does not offer is
    /// `ContextNotFound`, whatever `built` holds.
    pub fn connect_with_context(
        &mut self,
        context_name: &str,
        config: Result<&Kubeconfig, String>,
        built: Result<H, String>,
    ) -> (done: Result<(), ClientError>)
        ensures
            match config {
                Err(reason) => done matches Err(ClientError::ConnectFailed(text)) && text
                    == reason && final(self)@ == old(self)@,
                Ok(file) => if !file.offers(context_name@) {
                    done matches Err(ClientError::ContextNotFound(name)) && name@
                        == context_name@ && final(self)@ == old(self)@
                } else {
                    match built {
                        Ok(handle) => done is Ok && final(self)@ == Some(handle),
                        Err(reason) => done matches Err(ClientError::ConnectFailed(text))
                            && text == reason && final(self)@ == old(self)@,
                    }
                },
            },
    {
        match config {
            Err(reason) => Err(ClientError::ConnectFailed(reason)),
            Ok(file) => {
                if !file.has_context(context_name) {
                    Err(ClientError::ContextNotFound(String::from_str(context_name)))
                } else {
                    self.connect(built)
                }
            },
        }
    }

    /// A copy of the names of all contexts of a kubeconfig, in file order;
    /// `ConfigUnreadable` with the reason where the file could not be read.
    pub fn list_contexts(config: Result<&Kubeconfig, String>) -> (names: Result<
        Vec<String>,
        ClientError,
    >)
        ensures
            match config {
                Ok(file) => names matches Ok(list) && name_texts(list@) == file.context_names(),
                Err(reason) => names matches Err(ClientError::ConfigUnreadable(text)) && text
                    == reason,
            },
    {
        match config {
            Ok(file) => {
                let mut list: Vec<String> = Vec::new();
                let mut i: usize = 0;
                while i < file.contexts.len()
                    invariant
                        i <= file.contexts.len(),
                        name_texts(list@) == file.context_names().take(i as int),
                    decreases file.contexts.len() - i,
                {
                    let ghost before = list@;
                    list.push(file.contexts[i].clone());
                    proof {
                        assert(name_texts(list@) =~= name_texts(before).push(file.contexts@[i as int]@));
                        assert(file.context_names().take(i + 1) =~= file.context_names().take(
                            i as int,
                        ).push(file.contexts@[i as int]@));
                    }
                    i += 1;
                }
                proof {
                    assert(file.context_names().take(i as int) =~= file.context_names());
                }
                Ok(list)
            },
            Err(reason) => Err(ClientError::ConfigUnreadable(reason)),
        }
    }

    /// The name of the current context of a kubeconfig; `ConfigUnreadable`
    /// where the file could not be read, `NoCurrentContext` where it sets none.
    pub fn get_current_context(config: Result<&Kubeconfig, String>) -> (current: Result<
        String,
        ClientError,
    >)
        ensures
            match config {
                Ok(file) => match file.current_context {
                    Some(name) => current matches Ok(text) && text@ == name@,
                    None => current matches Err(ClientError::NoCurrentContext),
                },
                Err(reason) => current matches Err(ClientError::ConfigUnreadable(text)) && text
                    == reason,
            },
    {
        match config {
            Ok(file) => match &file.current_context {
                Some(name) => Ok(name.clone()),
                None => Err(ClientError::NoCurrentContext),
            },
            Err(reason) => Err(ClientError::ConfigUnreadable(reason)),
        }
    }

    /// What listing the namespaces takes: one cluster-wide call for the
    /// kind `Namespace`, or `NotConnected`.
    pub fn list_namespaces(&self) -> (request: Result<ListRequest<'_, H>, ClientError>)
        ensures
            match self@ {
                Some(installed) => request matches Ok(call) && *call.client == installed
                    && call.kind == ResourceKind::Namespace && call.namespace is None,
                None => request matches Err(ClientError::NotConnected),
            },
    {
        match &self.client {
            Some(handle) => Ok(
                ListRequest { client: handle, kind: ResourceKind::Namespace, namespace: None },
            ),
            None => Err(ClientError::NotConnected),
        }
    }

    /// What listing the objects of `kind` takes. Without a handle it is
    /// `NotConnected`, for every kind. With one, persistent volumes and
    /// their claims take no call and their list is empty; every other kind
    /// takes one call, confined to `namespace` where the kind lives in
    /// namespaces and one is given.
    pub fn list_resources(&self, kind: ResourceKind, namespace: Option<&str>) -> (plan: Result<
        ListPlan<'_, H>,
        ClientError,
    >)
        ensures
            match self@ {
                None => plan matches Err(ClientError::NotConnected),
                Some(installed) => if kind == ResourceKind::PersistentVolume || kind
                    == ResourceKind::PersistentVolumeClaim {
                    plan matches Ok(ListPlan::Done(items)) && items@.len() == 0
                } else {
                    plan matches Ok(ListPlan::Fetch(call)) && *call.client == installed
                        && call.kind == kind && text_of(call.namespace) == list_scope(
                        kind,
                        slice_text(namespace),
                    )
                },
            },
    {
        let handle = match &self.client {
            Some(handle) => handle,
            None => {
                return Err(ClientError::NotConnected);
            },
        };
        match kind {
            ResourceKind::PersistentVolume | ResourceKind::PersistentVolumeClaim => Ok(
                ListPlan::Done(Vec::new()),
            ),
            _ => {
                let scope = if kind.is_namespaced() {
                    owned(namespace)
                } else {
                    None
                };
                Ok(ListPlan::Fetch(ListRequest { client: handle, kind, namespace: scope }))
            },
        }
    }

    /// What fetching the log of a pod takes: one call for the pod
    /// `pod_name` in `namespace`, for one container where `container` names
    /// it, or `NotConnected`.
    pub fn get_pod_logs(&self, namespace: &str, pod_name: &str, container: Option<&str>) -> (request:
        Result<LogRequest<'_, H>, ClientError>)
        ensures
            match self@ {
                Some(installed) => request matches Ok(call) && *call.client == installed
                    && call.namespace@ == namespace@ && call.pod_name@ == pod_name@ && text_of(
                    call.container,
                ) == slice_text(container),
                None => request matches Err(ClientError::NotConnected),
            },
    {
        match &self.client {
            Some(handle) => Ok(
                LogRequest {
                    client: handle,
                    namespace: String::from_str(namespace),
                    pod_name: String::from_str(pod_name),
                    container: owned(container),
                },
            ),
            None => Err(ClientError::NotConnected),
        }
    }
}

} // verus!
