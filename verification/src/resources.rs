//! The uniform record every listed object is shown as, and the detail
//! records of a pod.

use vstd::prelude::*;
use crate::kind::ResourceKind;

verus! {

/// `serde_json::Value`, the structured document an object was received as.
/// The library carries such a document from the listing to the detail pane
/// and never looks inside it.
#[verifier::external_type_specification]
#[verifier::external_body]
pub struct ExValue(serde_json::Value);

/// `Clone::clone` of `serde_json::Value`, which the crate derives: the copy
/// is the same document, member for member.
pub assume_specification[ <serde_json::Value as Clone>::clone ](
    value: &serde_json::Value,
) -> (copy: serde_json::Value)
    ensures
        copy == *value,
;

/// One row of a resource list: any remote object, brought to one shape.
#[derive(Debug, Clone)]
pub struct ResourceItem {
    pub kind: ResourceKind,
    pub name: String,
    pub namespace: Option<String>,
    pub status: String,
    pub age: String,
    pub restart_count: Option<i32>,
    pub node_name: Option<String>,
    pub pod_ip: Option<String>,
    pub metadata: serde_json::Value,
}

/// What a `ResourceItem` says, with its texts as sequences of characters.
pub struct ResourceItemView {
    pub kind: ResourceKind,
    pub name: Seq<char>,
    pub namespace: Option<Seq<char>>,
    pub status: Seq<char>,
    pub age: Seq<char>,
    pub restart_count: Option<i32>,
    pub node_name: Option<Seq<char>>,
    pub pod_ip: Option<Seq<char>>,
    pub metadata: serde_json::Value,
}

/// The characters of an optional text.
pub open spec fn text_of(value: Option<String>) -> Option<Seq<char>> {
    match value {
        Some(text) => Some(text@),
        None => None,
    }
}

impl View for ResourceItem {
    type V = ResourceItemView;

    open spec fn view(&self) -> ResourceItemView {
        ResourceItemView {
            kind: self.kind,
            name: self.name@,
            namespace: text_of(self.namespace),
            status: self.status@,
            age: self.age@,
            restart_count: self.restart_count,
            node_name: text_of(self.node_name),
            pod_ip: text_of(self.pod_ip),
            metadata: self.metadata,
        }
    }
}

/// A copy of an optional text.
pub fn copy_text(value: &Option<String>) -> (copy: Option<String>)
    ensures
        text_of(copy) == text_of(*value),
{
    match value {
        Some(text) => Some(text.clone()),
        None => None,
    }
}

impl ResourceItem {
    /// A copy of the row that says the same in every column.
    pub fn duplicate(&self) -> (copy: ResourceItem)
        ensures
            copy@ == self@,
    {
        ResourceItem {
            kind: self.kind,
            name: self.name.clone(),
            namespace: copy_text(&self.namespace),
            status: self.status.clone(),
            age: self.age.clone(),
            restart_count: self.restart_count,
            node_name: copy_text(&self.node_name),
            pod_ip: copy_text(&self.pod_ip),
            metadata: self.metadata.clone(),
        }
    }
}

/// The views of a list of items, in order.
pub open spec fn item_views(items: Seq<ResourceItem>) -> Seq<ResourceItemView> {
    items.map_values(|item: ResourceItem| item@)
}

/// One container of a pod, as the detail pane shows it.
#[derive(Debug, Clone)]
pub struct ContainerInfo {
    pub name: String,
    pub image: String,
    pub ready: bool,
    pub restart_count: i32,
}

/// A pod with its containers, as the detail pane shows it.
#[derive(Debug, Clone)]
pub struct PodDetails {
    pub name: String,
    pub namespace: String,
    pub status: String,
    pub ip: Option<String>,
    pub node: Option<String>,
    pub containers: Vec<ContainerInfo>,
}

} // verus!
