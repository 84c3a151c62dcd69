//! The closed set of object kinds the inspector can list, and their
//! classification for display.

use vstd::prelude::*;

verus! {

/// A kind of Kubernetes object that the inspector knows how to show.
#[derive(Debug, Clone, Copy, PartialEq, Eq, Structural)]
pub enum ResourceKind {
    Namespace,
    Pod,
    Deployment,
    StatefulSet,
    DaemonSet,
    ReplicaSet,
    Service,
    Job,
    CronJob,
    ConfigMap,
    Secret,
    Ingress,
    PersistentVolume,
    PersistentVolumeClaim,
    Node,
}

/// The sidebar group a kind is shown under.
#[derive(Debug, Clone, Copy, PartialEq, Eq, Structural)]
pub enum Category {
    Cluster,
    Workloads,
    Network,
    Config,
    Storage,
}

impl Category {
    /// Every group, in the order the sidebar shows them.
    pub open spec fn all_categories() -> Seq<Category> {
        seq![
            Category::Cluster,
            Category::Workloads,
            Category::Network,
            Category::Config,
            Category::Storage,
        ]
    }

    /// All groups, in the order the sidebar shows them.
    pub fn all() -> (categories: Vec<Category>)
        ensures
            categories@ == Self::all_categories(),
    {
        let categories = vec![
            Category::Cluster,
            Category::Workloads,
            Category::Network,
            Category::Config,
            Category::Storage,
        ];
        assert(categories@ =~= Self::all_categories());
        categories
    }

    /// The label of the group.
    pub open spec fn label(self) -> Seq<char> {
        match self {
            Category::Cluster => "Cluster"@,
            Category::Workloads => "Workloads"@,
            Category::Network => "Network"@,
            Category::Config => "Config"@,
            Category::Storage => "Storage"@,
        }
    }

    /// The label of the group, as text.
    pub fn name(&self) -> (label: &'static str)
        ensures
            label@ == self.label(),
    {
        match self {
            Category::Cluster => "Cluster",
            Category::Workloads => "Workloads",
            Category::Network => "Network",
            Category::Config => "Config",
            Category::Storage => "Storage",
        }
    }
}

impl ResourceKind {
    /// Every kind, in the order the sidebar lists them.
    pub open spec fn all_kinds() -> Seq<ResourceKind> {
        seq![
            ResourceKind::Namespace,
            ResourceKind::Pod,
            ResourceKind::Deployment,
            ResourceKind::StatefulSet,
            ResourceKind::DaemonSet,
            ResourceKind::ReplicaSet,
            ResourceKind::Service,
            ResourceKind::Job,
            ResourceKind::CronJob,
            ResourceKind::ConfigMap,
            ResourceKind::Secret,
            ResourceKind::Ingress,
            ResourceKind::PersistentVolume,
            ResourceKind::PersistentVolumeClaim,
            ResourceKind::Node,
        ]
    }

    /// The group a kind belongs to.
    pub open spec fn group(self) -> Category {
        match self {
            ResourceKind::Namespace | ResourceKind::Node => Category::Cluster,
            ResourceKind::Pod
            | ResourceKind::Deployment
            | ResourceKind::StatefulSet
            | ResourceKind::DaemonSet
            | ResourceKind::ReplicaSet
            | ResourceKind::Job
            | ResourceKind::CronJob => Category::Workloads,
            ResourceKind::Service | ResourceKind::Ingress => Category::Network,
            ResourceKind::ConfigMap | ResourceKind::Secret => Category::Config,
            ResourceKind::PersistentVolume | ResourceKind::PersistentVolumeClaim => Category::Storage,
        }
    }

    /// The plural heading a kind is listed under.
    pub open spec fn heading(self) -> Seq<char> {
        match self {
            ResourceKind::Namespace => "Namespaces"@,
            ResourceKind::Pod => "Pods"@,
            ResourceKind::Deployment => "Deployments"@,
            ResourceKind::StatefulSet => "StatefulSets"@,
            ResourceKind::DaemonSet => "DaemonSets"@,
            ResourceKind::ReplicaSet => "ReplicaSets"@,
            ResourceKind::Service => "Services"@,
            ResourceKind::Job => "Jobs"@,
            ResourceKind::CronJob => "CronJobs"@,
            ResourceKind::ConfigMap => "ConfigMaps"@,
            ResourceKind::Secret => "Secrets"@,
            ResourceKind::Ingress => "Ingresses"@,
            ResourceKind::PersistentVolume => "PersistentVolumes"@,
            ResourceKind::PersistentVolumeClaim => "PersistentVolumeClaims"@,
            ResourceKind::Node => "Nodes"@,
        }
    }

    /// Whether objects of the kind live inside a namespace. Namespaces,
    /// nodes and persistent volumes belong to the cluster as a whole.
    pub open spec fn namespaced(self) -> bool {
        !(self == ResourceKind::Namespace || self == ResourceKind::Node || self
            == ResourceKind::PersistentVolume)
    }

    /// Whether objects of the kind live inside a namespace.
    pub fn is_namespaced(&self) -> (inside: bool)
        ensures
            inside == self.namespaced(),
    {
        match self {
            ResourceKind::Namespace | ResourceKind::Node | ResourceKind::PersistentVolume => false,
            _ => true,
        }
    }

    /// All kinds, each exactly once.
    pub fn all() -> (kinds: Vec<ResourceKind>)
        ensures
            kinds@ == Self::all_kinds(),
    {
        let kinds = vec![
            ResourceKind::Namespace,
            ResourceKind::Pod,
            ResourceKind::Deployment,
            ResourceKind::StatefulSet,
            ResourceKind::DaemonSet,
            ResourceKind::ReplicaSet,
            ResourceKind::Service,
            ResourceKind::Job,
            ResourceKind::CronJob,
            ResourceKind::ConfigMap,
            ResourceKind::Secret,
            ResourceKind::Ingress,
            ResourceKind::PersistentVolume,
            ResourceKind::PersistentVolumeClaim,
            ResourceKind::Node,
        ];
        assert(kinds@ =~= Self::all_kinds());
        kinds
    }

    /// The plural heading of the kind.
    pub fn display_name(&self) -> (name: &str)
        ensures
            name@ == self.heading(),
    {
        match self {
            ResourceKind::Namespace => "Namespaces",
            ResourceKind::Pod => "Pods",
            ResourceKind::Deployment => "Deployments",
            ResourceKind::StatefulSet => "StatefulSets",
            ResourceKind::DaemonSet => "DaemonSets",
            ResourceKind::ReplicaSet => "ReplicaSets",
            ResourceKind::Service => "Services",
            ResourceKind::Job => "Jobs",
            ResourceKind::CronJob => "CronJobs",
            ResourceKind::ConfigMap => "ConfigMaps",
            ResourceKind::Secret => "Secrets",
            ResourceKind::Ingress => "Ingresses",
            ResourceKind::PersistentVolume => "PersistentVolumes",
            ResourceKind::PersistentVolumeClaim => "PersistentVolumeClaims",
            ResourceKind::Node => "Nodes",
        }
    }

    /// The group the kind belongs to.
    pub fn category_of(&self) -> (category: Category)
        ensures
            category == self.group(),
    {
        match self {
            ResourceKind::Namespace | ResourceKind::Node => Category::Cluster,
            ResourceKind::Pod
            | ResourceKind::Deployment
            | ResourceKind::StatefulSet
            | ResourceKind::DaemonSet
            | ResourceKind::ReplicaSet
            | ResourceKind::Job
            | ResourceKind::CronJob => Category::Workloads,
            ResourceKind::Service | ResourceKind::Ingress => Category::Network,
            ResourceKind::ConfigMap | ResourceKind::Secret => Category::Config,
            ResourceKind::PersistentVolume | ResourceKind::PersistentVolumeClaim => Category::Storage,
        }
    }

    /// The label of the group the kind belongs to.
    pub fn category(&self) -> (label: &str)
        ensures
            label@ == self.group().label(),
    {
        match self {
            ResourceKind::Namespace => "Cluster",
            ResourceKind::Node => "Cluster",
            ResourceKind::Pod
            | ResourceKind::Deployment
            | ResourceKind::StatefulSet
            | ResourceKind::DaemonSet
            | ResourceKind::ReplicaSet => "Workloads",
            ResourceKind::Job | ResourceKind::CronJob => "Workloads",
            ResourceKind::Service | ResourceKind::Ingress => "Network",
            ResourceKind::ConfigMap | ResourceKind::Secret => "Config",
            ResourceKind::PersistentVolume | ResourceKind::PersistentVolumeClaim => "Storage",
        }
    }
}

/// The kinds among `kinds` that belong to `category`, in order.
pub open spec fn members(kinds: Seq<ResourceKind>, category: Category) -> Seq<ResourceKind>
    decreases kinds.len(),
{
    if kinds.len() == 0 {
        Seq::empty()
    } else if kinds.last().group() == category {
        members(kinds.drop_last(), category).push(kinds.last())
    } else {
        members(kinds.drop_last(), category)
    }
}

/// A kind is among the members of a group exactly when it is among the
/// kinds looked at and the group is its own.
pub proof fn lemma_members(kinds: Seq<ResourceKind>, category: Category, kind: ResourceKind)
    ensures
        members(kinds, category).contains(kind) <==> kinds.contains(kind) && kind.group()
            == category,
    decreases kinds.len(),
{
    if kinds.len() > 0 {
        let front = kinds.drop_last();
        let last = kinds.last();
        lemma_members(front, category, kind);
        if kinds.contains(kind) {
            let i = choose|i: int| 0 <= i < kinds.len() && kinds[i] == kind;
            if i < kinds.len() - 1 {
                assert(front[i] == kind);
            }
        }
        if front.contains(kind) {
            let i = choose|i: int| 0 <= i < front.len() && front[i] == kind;
            assert(kinds[i] == kind);
        }
        assert(kinds[kinds.len() - 1] == last);
        if last.group() == category {
            let shorter = members(front, category);
            let longer = shorter.push(last);
            if shorter.contains(kind) {
                let i = choose|i: int| 0 <= i < shorter.len() && shorter[i] == kind;
                assert(longer[i] == kind);
            }
            assert(longer[longer.len() - 1] == last);
        }
    }
}

/// Every kind is listed, and is shown under exactly one group of the
/// sidebar: its own.
pub proof fn lemma_one_group_per_kind(kind: ResourceKind)
    ensures
        ResourceKind::all_kinds().contains(kind),
        Category::all_categories().contains(kind.group()),
        forall|category: Category|
            #[trigger] members(ResourceKind::all_kinds(), category).contains(kind) <==> category
                == kind.group(),
{
    let kinds = ResourceKind::all_kinds();
    assert(kinds[0] == ResourceKind::Namespace);
    assert(kinds[1] == ResourceKind::Pod);
    assert(kinds[2] == ResourceKind::Deployment);
    assert(kinds[3] == ResourceKind::StatefulSet);
    assert(kinds[4] == ResourceKind::DaemonSet);
    assert(kinds[5] == ResourceKind::ReplicaSet);
    assert(kinds[6] == ResourceKind::Service);
    assert(kinds[7] == ResourceKind::Job);
    assert(kinds[8] == ResourceKind::CronJob);
    assert(kinds[9] == ResourceKind::ConfigMap);
    assert(kinds[10] == ResourceKind::Secret);
    assert(kinds[11] == ResourceKind::Ingress);
    assert(kinds[12] == ResourceKind::PersistentVolume);
    assert(kinds[13] == ResourceKind::PersistentVolumeClaim);
    assert(kinds[14] == ResourceKind::Node);
    let groups = Category::all_categories();
    assert(groups[0] == Category::Cluster);
    assert(groups[1] == Category::Workloads);
    assert(groups[2] == Category::Network);
    assert(groups[3] == Category::Config);
    assert(groups[4] == Category::Storage);
    assert forall|category: Category|
        #[trigger] members(kinds, category).contains(kind) <==> category == kind.group() by {
        lemma_members(kinds, category, kind);
    }
}

/// The kinds of one group, in the order `ResourceKind::all` lists them.
pub fn kinds_in(category: Category) -> (kinds: Vec<ResourceKind>)
    ensures
        kinds@ == members(ResourceKind::all_kinds(), category),
{
    let all = ResourceKind::all();
    let mut kinds: Vec<ResourceKind> = Vec::new();
    let mut i: usize = 0;
    while i < all.len()
        invariant
            i <= all.len(),
            all@ == ResourceKind::all_kinds(),
            kinds@ == members(all@.take(i as int), category),
        decreases all.len() - i,
    {
        proof {
            assert(all@.take(i + 1).drop_last() =~= all@.take(i as int));
            assert(all@.take(i + 1).last() == all@[i as int]);
        }
        if all[i].category_of() == category {
            kinds.push(all[i]);
        }
        i += 1;
    }
    proof {
        assert(all@.take(i as int) =~= all@);
    }
    kinds
}

/// The sections of the sidebar: each group's label with its kinds, the
/// groups in sidebar order and the kinds in listing order.
pub fn categorize_resources() -> (sections: Vec<(String, Vec<ResourceKind>)>)
    ensures
        sections@.len() == Category::all_categories().len(),
        forall|i: int|
            0 <= i < sections@.len() ==> (#[trigger] sections@[i]).0@
                == Category::all_categories()[i].label() && sections@[i].1@ == members(
                ResourceKind::all_kinds(),
                Category::all_categories()[i],
            ),
{
    let categories = Category::all();
    let mut sections: Vec<(String, Vec<ResourceKind>)> = Vec::new();
    let mut c: usize = 0;
    while c < categories.len()
        invariant
            c <= categories.len(),
            categories@ == Category::all_categories(),
            sections@.len() == c,
            forall|i: int|
                0 <= i < c ==> (#[trigger] sections@[i]).0@ == Category::all_categories()[i].label()
                    && sections@[i].1@ == members(
                    ResourceKind::all_kinds(),
                    Category::all_categories()[i],
                ),
        decreases categories.len() - c,
    {
        let category = categories[c];
        sections.push((String::from_str(category.name()), kinds_in(category)));
        c += 1;
    }
    sections
}

} // verus!
