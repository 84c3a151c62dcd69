//! The state of the window around the client: what is shown, what is
//! selected, and how the outcome of each piece of network work changes it.
//!
//! The window itself does the drawing and the network work. Each method
//! here is one decision: it takes what the operator did, or what the
//! network work came to, and says what the state is afterwards and what to
//! ask the cluster next.

use vstd::prelude::*;
use crate::contexts::name_texts;
use crate::error::ClientError;
use crate::kind::ResourceKind;
use crate::logs::{log_lines, shown_lines};
use crate::resources::{copy_text, item_views, text_of, ResourceItem, ResourceItemView};

verus! {

/// What the status bar says of the connection.
#[derive(Debug, Clone, PartialEq)]
pub enum ConnectionStatus {
    Disconnected,
    Connecting,
    Connected,
    Error(String),
}

/// The log pane of one pod.
#[derive(Debug, Clone, PartialEq)]
pub struct LogView {
    pub pod_name: String,
    pub namespace: String,
    pub logs: Vec<String>,
}

/// The main area of the window.
#[derive(Debug, Clone, PartialEq)]
pub enum ActiveView {
    Dashboard,
    Resources(ResourceKind),
    Logs(LogView),
}

/// One listing to ask the client for.
#[derive(Debug, Clone)]
pub struct Refresh {
    pub kind: ResourceKind,
    pub namespace: Option<String>,
}

impl ConnectionStatus {
    /// The status after an attempt to connect that came to `outcome`.
    pub open spec fn after(outcome: Result<(), ClientError>) -> ConnectionStatusView {
        match outcome {
            Ok(_) => ConnectionStatusView::Connected,
            Err(error) => ConnectionStatusView::Error(error.message_text()),
        }
    }

    /// The status after an attempt to connect: `Connected`, or `Error` with
    /// the line that says why not.
    pub fn after_attempt(outcome: &Result<(), ClientError>) -> (status: ConnectionStatus)
        ensures
            status@ == Self::after(*outcome),
    {
        match outcome {
            Ok(_) => ConnectionStatus::Connected,
            Err(error) => ConnectionStatus::Error(error.message()),
        }
    }
}

/// What a `ConnectionStatus` says, with its message as a sequence of
/// characters.
pub enum ConnectionStatusView {
    Disconnected,
    Connecting,
    Connected,
    Error(Seq<char>),
}

impl View for ConnectionStatus {
    type V = ConnectionStatusView;

    open spec fn view(&self) -> ConnectionStatusView {
        match self {
            ConnectionStatus::Disconnected => ConnectionStatusView::Disconnected,
            ConnectionStatus::Connecting => ConnectionStatusView::Connecting,
            ConnectionStatus::Connected => ConnectionStatusView::Connected,
            ConnectionStatus::Error(message) => ConnectionStatusView::Error(message@),
        }
    }
}

impl LogView {
    /// The pane of a pod whose log has not arrived yet.
    pub fn new(pod_name: String, namespace: String) -> (view: Self)
        ensures
            view.pod_name == pod_name,
            view.namespace == namespace,
            name_texts(view.logs@) == seq!["Loading logs..."@],
    {
        let logs = vec![String::from_str("Loading logs...")];
        assert(name_texts(logs@) =~= seq!["Loading logs..."@]);
        LogView { pod_name, namespace, logs }
    }

    /// Replaces the lines shown.
    pub fn set_logs(&mut self, logs: Vec<String>)
        ensures
            final(self).logs == logs,
            final(self).pod_name == old(self).pod_name,
            final(self).namespace == old(self).namespace,
    {
        self.logs = logs;
    }
}

/// The rows of `items` whose kind is `kind`, in order.
pub open spec fn rows_of_kind(items: Seq<ResourceItem>, kind: ResourceKind) -> Seq<
    ResourceItemView,
>
    decreases items.len(),
{
    if items.len() == 0 {
        Seq::empty()
    } else if items.last().kind == kind {
        rows_of_kind(items.drop_last(), kind).push(items.last()@)
    } else {
        rows_of_kind(items.drop_last(), kind)
    }
}

/// The state of the window.
#[derive(Debug, Clone)]
pub struct KubeSparkApp {
    pub active_view: ActiveView,
    pub selected_namespace: Option<String>,
    pub resources: Vec<ResourceItem>,
    pub selected_resource: Option<ResourceItem>,
    pub connection_status: ConnectionStatus,
    pub is_sidebar_collapsed: bool,
    pub show_detail: bool,
    pub show_settings: bool,
    pub available_contexts: Vec<String>,
    pub current_context: String,
    pub show_context_menu: bool,
}

impl KubeSparkApp {
    /// The listing that shows what the state asks for: the kind of the
    /// resource view in the selected namespace, none while another view is
    /// up.
    pub open spec fn wanted(self) -> Option<(ResourceKind, Option<Seq<char>>)> {
        match self.active_view {
            ActiveView::Resources(kind) => Some((kind, text_of(self.selected_namespace))),
            _ => None,
        }
    }

    /// The state of a window that has just opened: the dashboard, nothing
    /// selected, no connection yet, the contexts still loading, and
    /// `resources` as the rows to start with.
    pub fn new(is_sidebar_collapsed: bool, resources: Vec<ResourceItem>) -> (app: Self)
        ensures
            app.active_view == ActiveView::Dashboard,
            app.selected_namespace is None,
            app.resources == resources,
            app.selected_resource is None,
            app.connection_status == ConnectionStatus::Disconnected,
            app.is_sidebar_collapsed == is_sidebar_collapsed,
            !app.show_detail,
            !app.show_settings,
            app.available_contexts@.len() == 0,
            app.current_context@ == "Loading..."@,
            !app.show_context_menu,
    {
        KubeSparkApp {
            active_view: ActiveView::Dashboard,
            selected_namespace: None,
            resources,
            selected_resource: None,
            connection_status: ConnectionStatus::Disconnected,
            is_sidebar_collapsed,
            show_detail: false,
            show_settings: false,
            available_contexts: Vec::new(),
            current_context: String::from_str("Loading..."),
            show_context_menu: false,
        }
    }

    /// Takes what reading the kubeconfig at startup came to. The contexts
    /// offered are those read, none where reading failed; the current
    /// context is the one read, `Error` where there is none to show.
    pub fn contexts_loaded(
        &mut self,
        contexts: Result<Vec<String>, ClientError>,
        current: Result<String, ClientError>,
    )
        ensures
            match contexts {
                Ok(names) => final(self).available_contexts == names,
                Err(_) => final(self).available_contexts@.len() == 0,
            },
            match current {
                Ok(name) => final(self).current_context == name,
                Err(_) => final(self).current_context@ == "Error"@,
            },
            *final(self) == (KubeSparkApp {
                available_contexts: final(self).available_contexts,
                current_context: final(self).current_context,
                ..*old(self)
            }),
    {
        self.available_contexts = match contexts {
            Ok(names) => names,
            Err(_) => Vec::new(),
        };
        self.current_context = match current {
            Ok(name) => name,
            Err(_) => String::from_str("Error"),
        };
    }

    /// Takes what an attempt to connect came to, the one made at startup
    /// included: the status says `Connected`, or carries the failure as its
    /// message. Nothing else changes.
    pub fn connected(&mut self, outcome: &Result<(), ClientError>)
        ensures
            final(self).connection_status@ == ConnectionStatus::after(*outcome),
            *final(self) == (KubeSparkApp {
                connection_status: final(self).connection_status,
                ..*old(self)
            }),
    {
        self.connection_status = ConnectionStatus::after_attempt(outcome);
    }

    /// Shows the settings panel, or hides it.
    pub fn toggle_settings(&mut self)
        ensures
            *final(self) == (KubeSparkApp { show_settings: !old(self).show_settings, ..*old(self) }),
    {
        self.show_settings = !self.show_settings;
    }

    /// Opens the context menu, or closes it.
    pub fn toggle_context_menu(&mut self)
        ensures
            *final(self) == (KubeSparkApp {
                show_context_menu: !old(self).show_context_menu,
                ..*old(self)
            }),
    {
        self.show_context_menu = !self.show_context_menu;
    }

    /// Collapses the sidebar, or expands it; hands back whether it is
    /// collapsed now, for the caller to remember.
    pub fn toggle_sidebar(&mut self) -> (collapsed: bool)
        ensures
            collapsed == !old(self).is_sidebar_collapsed,
            *final(self) == (KubeSparkApp { is_sidebar_collapsed: collapsed, ..*old(self) }),
    {
        self.is_sidebar_collapsed = !self.is_sidebar_collapsed;
        self.is_sidebar_collapsed
    }

    /// The operator picked the context `ctx_name`: the menu closes, the
    /// context is shown as current, and the connection is shown as being
    /// made. The caller then connects with that context and reports with
    /// `context_switched`.
    pub fn switch_context(&mut self, ctx_name: String)
        ensures
            *final(self) == (KubeSparkApp {
                show_context_menu: false,
                current_context: ctx_name,
                connection_status: ConnectionStatus::Connecting,
                ..*old(self)
            }),
    {
        self.show_context_menu = false;
        self.current_context = ctx_name;
        self.connection_status = ConnectionStatus::Connecting;
    }

    /// Takes what connecting with the picked context came to: the status
    /// says `Connected`, or carries the failure as its message. Hands back
    /// the listing to fetch next, as `refresh` does.
    pub fn context_switched(&mut self, outcome: &Result<(), ClientError>) -> (next: Option<
        Refresh,
    >)
        ensures
            final(self).connection_status@ == ConnectionStatus::after(*outcome),
            *final(self) == (KubeSparkApp {
                connection_status: final(self).connection_status,
                ..*old(self)
            }),
            refresh_view(next) == old(self).wanted(),
    {
        self.connected(outcome);
        self.refresh()
    }

    /// The operator picked a kind in the sidebar: its list becomes the main
    /// view, and the detail pane closes. Hands back the listing to fetch.
    pub fn select_resource_kind(&mut self, kind: ResourceKind) -> (next: Refresh)
        ensures
            *final(self) == (KubeSparkApp {
                active_view: ActiveView::Resources(kind),
                selected_resource: None,
                show_detail: false,
                ..*old(self)
            }),
            next.kind == kind,
            text_of(next.namespace) == text_of(old(self).selected_namespace),
    {
        self.active_view = ActiveView::Resources(kind);
        self.selected_resource = None;
        self.show_detail = false;
        Refresh { kind, namespace: copy_text(&self.selected_namespace) }
    }

    /// The operator picked a view that is not a list of resources: it
    /// becomes the main view, and the detail pane closes.
    pub fn show_view(&mut self, view: ActiveView)
        ensures
            *final(self) == (KubeSparkApp {
                active_view: view,
                selected_resource: None,
                show_detail: false,
                ..*old(self)
            }),
    {
        self.active_view = view;
        self.selected_resource = None;
        self.show_detail = false;
    }

    /// The operator picked a row: the detail pane opens on it.
    pub fn select_resource(&mut self, resource: ResourceItem)
        ensures
            *final(self) == (KubeSparkApp {
                selected_resource: Some(resource),
                show_detail: true,
                ..*old(self)
            }),
    {
        self.selected_resource = Some(resource);
        self.show_detail = true;
    }

    /// Closes the detail pane and forgets the row it showed.
    pub fn close_detail(&mut self)
        ensures
            *final(self) == (KubeSparkApp {
                selected_resource: None,
                show_detail: false,
                ..*old(self)
            }),
    {
        self.show_detail = false;
        self.selected_resource = None;
    }

    /// The listing to fetch to bring the main view up to date: the kind of
    /// the resource view, in the selected namespace. `None` while another
    /// view is up.
    pub fn refresh(&self) -> (next: Option<Refresh>)
        ensures
            refresh_view(next) == self.wanted(),
    {
        match &self.active_view {
            ActiveView::Resources(kind) => Some(
                Refresh { kind: *kind, namespace: copy_text(&self.selected_namespace) },
            ),
            _ => None,
        }
    }

    /// Takes what a listing came to. A complete list replaces the rows; a
    /// failure leaves the rows shown as they are.
    pub fn apply_listing(&mut self, outcome: Result<Vec<ResourceItem>, ClientError>)
        ensures
            match outcome {
                Ok(items) => *final(self) == (KubeSparkApp { resources: items, ..*old(self) }),
                Err(_) => *final(self) == *old(self),
            },
    {
        match outcome {
            Ok(items) => {
                self.resources = items;
            },
            Err(_) => {},
        }
    }

    /// The operator asked for the log of a pod: its log pane becomes the
    /// main view, showing that the log is loading.
    pub fn open_logs(&mut self, pod_name: String, namespace: String)
        ensures
            final(self).active_view matches ActiveView::Logs(pane) && pane.pod_name == pod_name
                && pane.namespace == namespace && name_texts(pane.logs@) == seq![
                "Loading logs..."@,
            ],
            *final(self) == (KubeSparkApp { active_view: final(self).active_view, ..*old(self) }),
    {
        self.active_view = ActiveView::Logs(LogView::new(pod_name, namespace));
    }

    /// Takes what fetching a log came to. While a log pane is up it shows
    /// the lines of the log, or one line that says why there is none;
    /// with another view up, nothing changes.
    pub fn apply_logs(&mut self, outcome: &Result<String, ClientError>)
        ensures
            match old(self).active_view {
                ActiveView::Logs(before) => final(self).active_view matches ActiveView::Logs(pane)
                    && pane.pod_name == before.pod_name && pane.namespace == before.namespace
                    && name_texts(pane.logs@) == shown_lines(*outcome) && *final(self)
                    == (KubeSparkApp { active_view: final(self).active_view, ..*old(self) }),
                _ => *final(self) == *old(self),
            },
    {
        match &mut self.active_view {
            ActiveView::Logs(pane) => {
                pane.set_logs(log_lines(outcome));
            },
            _ => {},
        }
    }

    /// Closes the log pane: the list of pods becomes the main view.
    pub fn close_logs(&mut self)
        ensures
            *final(self) == (KubeSparkApp {
                active_view: ActiveView::Resources(ResourceKind::Pod),
                ..*old(self)
            }),
    {
        self.active_view = ActiveView::Resources(ResourceKind::Pod);
    }

    /// Copies of the rows of kind `kind`, in the order held.
    pub fn visible_resources(&self, kind: ResourceKind) -> (rows: Vec<ResourceItem>)
        ensures
            item_views(rows@) == rows_of_kind(self.resources@, kind),
    {
        let mut rows: Vec<ResourceItem> = Vec::new();
        let mut i: usize = 0;
        while i < self.resources.len()
            invariant
                i <= self.resources.len(),
                item_views(rows@) == rows_of_kind(self.resources@.take(i as int), kind),
            decreases self.resources.len() - i,
        {
            proof {
                assert(self.resources@.take(i + 1).drop_last() =~= self.resources@.take(i as int));
                assert(self.resources@.take(i + 1).last() == self.resources@[i as int]);
            }
            if self.resources[i].kind == kind {
                let ghost before = rows@;
                let copy = self.resources[i].duplicate();
                rows.push(copy);
                proof {
                    assert(item_views(rows@) =~= item_views(before).push(copy@));
                }
            }
            i += 1;
        }
        proof {
            assert(self.resources@.take(i as int) =~= self.resources@);
        }
        rows
    }
}

/// What a listing to fetch asks for.
pub open spec fn refresh_view(next: Option<Refresh>) -> Option<(ResourceKind, Option<Seq<char>>)> {
    match next {
        Some(request) => Some((request.kind, text_of(request.namespace))),
        None => None,
    }
}

/// How a status is coloured in the list.
#[derive(Debug, Clone, Copy, PartialEq, Eq, Structural)]
pub enum StatusTone {
    Good,
    Warning,
    Bad,
    Muted,
}

/// The colouring of a status text: good for what runs or has finished well,
/// a warning for what is still starting, bad for what failed, and muted for
/// everything else.
pub open spec fn tone_of(status: Seq<char>) -> StatusTone {
    if status == "Running"@ || status == "Ready"@ || status == "Succeeded"@ {
        StatusTone::Good
    } else if status == "Pending"@ || status == "ContainerCreating"@ {
        StatusTone::Warning
    } else if status == "Failed"@ || status == "Error"@ || status == "CrashLoopBackOff"@ {
        StatusTone::Bad
    } else {
        StatusTone::Muted
    }
}

/// Whether `text` reads `word`.
fn same_text(text: &String, word: &str) -> (same: bool)
    ensures
        same == (text@ == word@),
{
    *text == String::from_str(word)
}

/// How the status column colours `status`.
pub fn status_tone(status: &str) -> (tone: StatusTone)
    ensures
        tone == tone_of(status@),
{
    let text = String::from_str(status);
    if same_text(&text, "Running") || same_text(&text, "Ready") || same_text(&text, "Succeeded") {
        StatusTone::Good
    } else if same_text(&text, "Pending") || same_text(&text, "ContainerCreating") {
        StatusTone::Warning
    } else if same_text(&text, "Failed") || same_text(&text, "Error") || same_text(
        &text,
        "CrashLoopBackOff",
    ) {
        StatusTone::Bad
    } else {
        StatusTone::Muted
    }
}

} // verus!
