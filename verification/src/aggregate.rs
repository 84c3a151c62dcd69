//! Turning the objects a listing returned into rows: one row per object
//! that has a name and a document, in the order received.

use vstd::prelude::*;
use crate::age::{age_between, clock_now, format_age_at, Timestamp};
use crate::error::ClientError;
use crate::kind::ResourceKind;
use crate::objects::{
    ConfigMap, CronJob, DaemonSet, Deployment, Ingress, Job, Namespace, Node, Pod, Remote,
    ReplicaSet, Secret, Service, StatefulSet, Summarize,
};
use crate::resources::{item_views, text_of, ResourceItem, ResourceItemView};

verus! {

/// The age column of an object: its age at `now`, or `Unknown` where it
/// carries no creation time.
pub open spec fn age_column(created: Option<Timestamp>, now: Timestamp) -> Seq<char> {
    match created {
        Some(timestamp) => age_between(now, timestamp),
        None => "Unknown"@,
    }
}

/// Whether an object gets a row: it has a name, and it could be turned into
/// a document.
pub open spec fn is_listed<T>(object: Remote<T>) -> bool {
    object.metadata.name is Some && object.document is Some
}

/// The row of a listed object.
pub open spec fn row_of<T: Summarize>(object: Remote<T>, now: Timestamp) -> ResourceItemView
    recommends
        is_listed(object),
{
    ResourceItemView {
        kind: T::row_kind(),
        name: object.metadata.name->0@,
        namespace: if T::row_kind().namespaced() {
            text_of(object.metadata.namespace)
        } else {
            None
        },
        status: object.object.status_text(),
        age: age_column(object.metadata.creation_timestamp, now),
        restart_count: object.object.restart_total(),
        node_name: None,
        pod_ip: None,
        metadata: object.document->0,
    }
}

/// The rows of a sequence of objects: those of the listed ones, in order.
pub open spec fn rows_of<T: Summarize>(objects: Seq<Remote<T>>, now: Timestamp) -> Seq<
    ResourceItemView,
>
    decreases objects.len(),
{
    if objects.len() == 0 {
        Seq::empty()
    } else if is_listed(objects.last()) {
        rows_of(objects.drop_last(), now).push(row_of(objects.last(), now))
    } else {
        rows_of(objects.drop_last(), now)
    }
}

/// A listing never has more rows than objects, and has fewer as soon as one
/// object lacks a name; every row is the row of a listed object.
pub proof fn lemma_rows_bounded<T: Summarize>(objects: Seq<Remote<T>>, now: Timestamp)
    ensures
        rows_of(objects, now).len() <= objects.len(),
        (exists|i: int| 0 <= i < objects.len() && !is_listed(#[trigger] objects[i])) ==> rows_of(
            objects,
            now,
        ).len() < objects.len(),
        (exists|i: int| 0 <= i < objects.len() && (#[trigger] objects[i]).metadata.name is None)
            ==> rows_of(objects, now).len() < objects.len(),
        (forall|i: int| 0 <= i < objects.len() ==> is_listed(#[trigger] objects[i])) ==> rows_of(
            objects,
            now,
        ).len() == objects.len(),
        forall|k: int|
            0 <= k < rows_of(objects, now).len() ==> exists|i: int|
                0 <= i < objects.len() && is_listed(#[trigger] objects[i]) && (
                #[trigger] rows_of(objects, now)[k]) == row_of(objects[i], now),
    decreases objects.len(),
{
    if objects.len() > 0 {
        let front = objects.drop_last();
        let last = objects.len() - 1;
        lemma_rows_bounded(front, now);
        assert(forall|i: int| 0 <= i < front.len() ==> front[i] == objects[i]);
        assert forall|k: int| 0 <= k < rows_of(objects, now).len() implies exists|i: int|
            0 <= i < objects.len() && is_listed(#[trigger] objects[i]) && (#[trigger] rows_of(
                objects,
                now,
            )[k]) == row_of(objects[i], now) by {
            if k < rows_of(front, now).len() {
                let i = choose|i: int|
                    0 <= i < front.len() && is_listed(#[trigger] front[i]) && (#[trigger] rows_of(
                        front,
                        now,
                    )[k]) == row_of(front[i], now);
                assert(is_listed(objects[i]));
            } else {
                assert(is_listed(objects[last]));
            }
        }
        if exists|i: int| 0 <= i < objects.len() && !is_listed(#[trigger] objects[i]) {
            let i = choose|i: int| 0 <= i < objects.len() && !is_listed(#[trigger] objects[i]);
            if i < last {
                assert(!is_listed(front[i]));
            }
        }
        if exists|i: int|
            0 <= i < objects.len() && (#[trigger] objects[i]).metadata.name is None {
            let i = choose|i: int|
                0 <= i < objects.len() && (#[trigger] objects[i]).metadata.name is None;
            assert(!is_listed(objects[i]));
        }
    }
}

/// The age column of an object read at `now`.
pub fn format_created(created: &Option<Timestamp>, now: &Timestamp) -> (text: String)
    ensures
        text@ == age_column(*created, *now),
{
    match created {
        Some(timestamp) => format_age_at(timestamp, now),
        None => String::from_str("Unknown"),
    }
}

/// The row of one object, or `None` for an object without a name or
/// without a document.
pub fn project<T: Summarize>(object: Remote<T>, now: &Timestamp) -> (row: Option<ResourceItem>)
    ensures
        row is Some <==> is_listed(object),
        row matches Some(item) ==> item@ == row_of(object, *now),
{
    let Remote { metadata, object: facts, document } = object;
    let name = match metadata.name {
        Some(name) => name,
        None => {
            return None;
        },
    };
    let kind = T::kind();
    let namespace = if kind.is_namespaced() {
        metadata.namespace
    } else {
        None
    };
    let status = facts.status();
    let age = format_created(&metadata.creation_timestamp, now);
    let restart_count = facts.restart_count();
    match document {
        Some(document) => Some(
            ResourceItem {
                kind,
                name,
                namespace,
                status,
                age,
                restart_count,
                node_name: None,
                pod_ip: None,
                metadata: document,
            },
        ),
        None => None,
    }
}

/// The rows of the objects of one listing, read at `now`.
pub fn project_all<T: Summarize>(objects: Vec<Remote<T>>, now: &Timestamp) -> (items: Vec<
    ResourceItem,
>)
    ensures
        item_views(items@) == rows_of(objects@, *now),
        items@.len() <= objects@.len(),
{
    proof {
        lemma_rows_bounded(objects@, *now);
    }
    let mut items: Vec<ResourceItem> = Vec::new();
    let ghost all = objects@;
    for object in it: objects
        invariant
            it.seq() == all,
            item_views(items@) == rows_of(all.take(it.index() as int), *now),
    {
        proof {
            let i = it.index() as int;
            assert(all.take(i + 1).drop_last() =~= all.take(i));
            assert(all.take(i + 1).last() == all[i]);
        }
        let ghost before = items@;
        match project(object, now) {
            Some(item) => {
                items.push(item);
                proof {
                    assert(item_views(items@) =~= item_views(before).push(item@));
                }
            },
            None => {},
        }
    }
    proof {
        assert(all.take(all.len() as int) =~= all);
    }
    items
}

/// What one list call returned: the objects of one kind.
pub enum Listing {
    Namespaces(Vec<Remote<Namespace>>),
    Pods(Vec<Remote<Pod>>),
    Deployments(Vec<Remote<Deployment>>),
    StatefulSets(Vec<Remote<StatefulSet>>),
    DaemonSets(Vec<Remote<DaemonSet>>),
    ReplicaSets(Vec<Remote<ReplicaSet>>),
    Services(Vec<Remote<Service>>),
    Jobs(Vec<Remote<Job>>),
    CronJobs(Vec<Remote<CronJob>>),
    ConfigMaps(Vec<Remote<ConfigMap>>),
    Secrets(Vec<Remote<Secret>>),
    Ingresses(Vec<Remote<Ingress>>),
    Nodes(Vec<Remote<Node>>),
}

impl Listing {
    /// The kind of the objects.
    pub open spec fn kind(self) -> ResourceKind {
        match self {
            Listing::Namespaces(_) => ResourceKind::Namespace,
            Listing::Pods(_) => ResourceKind::Pod,
            Listing::Deployments(_) => ResourceKind::Deployment,
            Listing::StatefulSets(_) => ResourceKind::StatefulSet,
            Listing::DaemonSets(_) => ResourceKind::DaemonSet,
            Listing::ReplicaSets(_) => ResourceKind::ReplicaSet,
            Listing::Services(_) => ResourceKind::Service,
            Listing::Jobs(_) => ResourceKind::Job,
            Listing::CronJobs(_) => ResourceKind::CronJob,
            Listing::ConfigMaps(_) => ResourceKind::ConfigMap,
            Listing::Secrets(_) => ResourceKind::Secret,
            Listing::Ingresses(_) => ResourceKind::Ingress,
            Listing::Nodes(_) => ResourceKind::Node,
        }
    }

    /// The number of objects returned.
    pub open spec fn count(self) -> nat {
        match self {
            Listing::Namespaces(objects) => objects@.len(),
            Listing::Pods(objects) => objects@.len(),
            Listing::Deployments(objects) => objects@.len(),
            Listing::StatefulSets(objects) => objects@.len(),
            Listing::DaemonSets(objects) => objects@.len(),
            Listing::ReplicaSets(objects) => objects@.len(),
            Listing::Services(objects) => objects@.len(),
            Listing::Jobs(objects) => objects@.len(),
            Listing::CronJobs(objects) => objects@.len(),
            Listing::ConfigMaps(objects) => objects@.len(),
            Listing::Secrets(objects) => objects@.len(),
            Listing::Ingresses(objects) => objects@.len(),
            Listing::Nodes(objects) => objects@.len(),
        }
    }

    /// The rows of the objects, read at `now`.
    pub open spec fn rows(self, now: Timestamp) -> Seq<ResourceItemView> {
        match self {
            Listing::Namespaces(objects) => rows_of(objects@, now),
            Listing::Pods(objects) => rows_of(objects@, now),
            Listing::Deployments(objects) => rows_of(objects@, now),
            Listing::StatefulSets(objects) => rows_of(objects@, now),
            Listing::DaemonSets(objects) => rows_of(objects@, now),
            Listing::ReplicaSets(objects) => rows_of(objects@, now),
            Listing::Services(objects) => rows_of(objects@, now),
            Listing::Jobs(objects) => rows_of(objects@, now),
            Listing::CronJobs(objects) => rows_of(objects@, now),
            Listing::ConfigMaps(objects) => rows_of(objects@, now),
            Listing::Secrets(objects) => rows_of(objects@, now),
            Listing::Ingresses(objects) => rows_of(objects@, now),
            Listing::Nodes(objects) => rows_of(objects@, now),
        }
    }

    /// Turns the objects into rows, read at `now`.
    pub fn into_items(self, now: &Timestamp) -> (items: Vec<ResourceItem>)
        ensures
            item_views(items@) == self.rows(*now),
            items@.len() <= self.count(),
    {
        match self {
            Listing::Namespaces(objects) => project_all(objects, now),
            Listing::Pods(objects) => project_all(objects, now),
            Listing::Deployments(objects) => project_all(objects, now),
            Listing::StatefulSets(objects) => project_all(objects, now),
            Listing::DaemonSets(objects) => project_all(objects, now),
            Listing::ReplicaSets(objects) => project_all(objects, now),
            Listing::Services(objects) => project_all(objects, now),
            Listing::Jobs(objects) => project_all(objects, now),
            Listing::CronJobs(objects) => project_all(objects, now),
            Listing::ConfigMaps(objects) => project_all(objects, now),
            Listing::Secrets(objects) => project_all(objects, now),
            Listing::Ingresses(objects) => project_all(objects, now),
            Listing::Nodes(objects) => project_all(objects, now),
        }
    }
}

/// Every row of a listing carries the kind of the listing.
pub proof fn lemma_rows_carry_kind(listing: Listing, now: Timestamp)
    ensures
        forall|k: int| 0 <= k < listing.rows(now).len() ==> (#[trigger] listing.rows(now)[k]).kind
            == listing.kind(),
{
    match listing {
        Listing::Namespaces(objects) => lemma_rows_bounded(objects@, now),
        Listing::Pods(objects) => lemma_rows_bounded(objects@, now),
        Listing::Deployments(objects) => lemma_rows_bounded(objects@, now),
        Listing::StatefulSets(objects) => lemma_rows_bounded(objects@, now),
        Listing::DaemonSets(objects) => lemma_rows_bounded(objects@, now),
        Listing::ReplicaSets(objects) => lemma_rows_bounded(objects@, now),
        Listing::Services(objects) => lemma_rows_bounded(objects@, now),
        Listing::Jobs(objects) => lemma_rows_bounded(objects@, now),
        Listing::CronJobs(objects) => lemma_rows_bounded(objects@, now),
        Listing::ConfigMaps(objects) => lemma_rows_bounded(objects@, now),
        Listing::Secrets(objects) => lemma_rows_bounded(objects@, now),
        Listing::Ingresses(objects) => lemma_rows_bounded(objects@, now),
        Listing::Nodes(objects) => lemma_rows_bounded(objects@, now),
    }
}

/// What the caller of a listing gets for the reply of the cluster, read at
/// `now`: the rows of a complete reply, or `RemoteCallFailed` with the
/// reason of a failed one. There is no partial list.
pub fn complete_listing_at(reply: Result<Listing, String>, now: &Timestamp) -> (listed: Result<
    Vec<ResourceItem>,
    ClientError,
>)
    ensures
        match reply {
            Ok(listing) => listed matches Ok(items) && item_views(items@) == listing.rows(*now),
            Err(reason) => listed matches Err(ClientError::RemoteCallFailed(text)) && text
                == reason,
        },
{
    match reply {
        Ok(listing) => Ok(listing.into_items(now)),
        Err(reason) => Err(ClientError::RemoteCallFailed(reason)),
    }
}

/// What the caller of a listing gets for the reply of the cluster, with
/// ages read at the present moment: one reading of the clock serves the
/// whole list.
pub fn complete_listing(reply: Result<Listing, String>) -> (listed: Result<
    Vec<ResourceItem>,
    ClientError,
>)
    ensures
        match reply {
            Ok(listing) => listed matches Ok(items) && exists|now: Timestamp|
                item_views(items@) == listing.rows(now),
            Err(reason) => listed matches Err(ClientError::RemoteCallFailed(text)) && text
                == reason,
        },
{
    let now = clock_now();
    complete_listing_at(reply, &now)
}

/// The names of the named namespaces of a reply, in order.
pub open spec fn names_of(objects: Seq<Remote<Namespace>>) -> Seq<Seq<char>>
    decreases objects.len(),
{
    if objects.len() == 0 {
        Seq::empty()
    } else {
        match objects.last().metadata.name {
            Some(name) => names_of(objects.drop_last()).push(name@),
            None => names_of(objects.drop_last()),
        }
    }
}

/// What the caller of a namespace listing gets for the reply of the
/// cluster: the names of the namespaces that have one, in order, or
/// `RemoteCallFailed` with the reason of a failed reply.
pub fn complete_namespaces(reply: Result<Vec<Remote<Namespace>>, String>) -> (listed: Result<
    Vec<String>,
    ClientError,
>)
    ensures
        match reply {
            Ok(objects) => listed matches Ok(names) && crate::contexts::name_texts(names@)
                == names_of(objects@),
            Err(reason) => listed matches Err(ClientError::RemoteCallFailed(text)) && text
                == reason,
        },
{
    let objects = match reply {
        Ok(objects) => objects,
        Err(reason) => {
            return Err(ClientError::RemoteCallFailed(reason));
        },
    };
    let mut names: Vec<String> = Vec::new();
    let ghost all = objects@;
    for object in it: objects
        invariant
            it.seq() == all,
            crate::contexts::name_texts(names@) == names_of(all.take(it.index() as int)),
    {
        proof {
            let i = it.index() as int;
            assert(all.take(i + 1).drop_last() =~= all.take(i));
            assert(all.take(i + 1).last() == all[i]);
        }
        let ghost before = names@;
        match object.metadata.name {
            Some(name) => {
                names.push(name);
                proof {
                    assert(crate::contexts::name_texts(names@) =~= crate::contexts::name_texts(
                        before,
                    ).push(name@));
                }
            },
            None => {},
        }
    }
    proof {
        assert(all.take(all.len() as int) =~= all);
    }
    Ok(names)
}

} // verus!
