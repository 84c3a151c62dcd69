//! The operator's preferences that concern the cluster and the editor, and
//! the choice of theme.

use vstd::prelude::*;

verus! {

/// The colour scheme of the window.
#[derive(Debug, Clone, Copy, PartialEq, Eq, Structural)]
pub enum Theme {
    Dark,
    Light,
    HighContrast,
}

impl Theme {
    /// Every theme, in the order the settings offer them.
    pub open spec fn all_themes() -> Seq<Theme> {
        seq![Theme::Dark, Theme::Light, Theme::HighContrast]
    }

    /// The name a theme is offered under.
    pub open spec fn label(self) -> Seq<char> {
        match self {
            Theme::Dark => "Dark"@,
            Theme::Light => "Light"@,
            Theme::HighContrast => "High Contrast"@,
        }
    }

    /// All themes, each exactly once.
    pub fn all() -> (themes: Vec<Theme>)
        ensures
            themes@ == Self::all_themes(),
    {
        let themes = vec![Theme::Dark, Theme::Light, Theme::HighContrast];
        assert(themes@ =~= Self::all_themes());
        themes
    }

    /// The name the theme is offered under.
    pub fn name(&self) -> (name: &str)
        ensures
            name@ == self.label(),
    {
        match self {
            Theme::Dark => "Dark",
            Theme::Light => "Light",
            Theme::HighContrast => "High Contrast",
        }
    }
}

/// A page of the settings panel.
#[derive(Debug, Clone, Copy, PartialEq, Eq, Structural)]
pub enum SettingsTab {
    Appearance,
    Kubernetes,
    Editor,
    Window,
}

impl SettingsTab {
    /// Every page, in the order of the tab bar.
    pub open spec fn all_tabs() -> Seq<SettingsTab> {
        seq![
            SettingsTab::Appearance,
            SettingsTab::Kubernetes,
            SettingsTab::Editor,
            SettingsTab::Window,
        ]
    }

    /// The title of a page.
    pub open spec fn title(self) -> Seq<char> {
        match self {
            SettingsTab::Appearance => "Appearance"@,
            SettingsTab::Kubernetes => "Kubernetes"@,
            SettingsTab::Editor => "Editor"@,
            SettingsTab::Window => "Window"@,
        }
    }

    /// All pages, each exactly once.
    pub fn all() -> (tabs: Vec<SettingsTab>)
        ensures
            tabs@ == Self::all_tabs(),
    {
        let tabs = vec![
            SettingsTab::Appearance,
            SettingsTab::Kubernetes,
            SettingsTab::Editor,
            SettingsTab::Window,
        ];
        assert(tabs@ =~= Self::all_tabs());
        tabs
    }

    /// The title of the page.
    pub fn name(&self) -> (name: &str)
        ensures
            name@ == self.title(),
    {
        match self {
            SettingsTab::Appearance => "Appearance",
            SettingsTab::Kubernetes => "Kubernetes",
            SettingsTab::Editor => "Editor",
            SettingsTab::Window => "Window",
        }
    }
}

/// How the inspector talks to the cluster.
#[derive(Debug, Clone)]
pub struct KubernetesSettings {
    /// Seconds between automatic refreshes; 0 switches them off.
    pub auto_refresh_interval: u64,
    /// The namespace selected at startup.
    pub default_namespace: String,
    /// Whether system namespaces are shown.
    pub show_system_namespaces: bool,
    /// The most rows shown per kind.
    pub max_items_per_page: usize,
    /// Whether lists follow the cluster as it changes.
    pub watch_mode_enabled: bool,
    /// The kubeconfig to read; empty for the default one.
    pub kubeconfig_path: String,
    /// The context to use; empty for the current one.
    pub context: String,
    /// Whether resource metrics are shown.
    pub show_metrics: bool,
    /// Whether events raise notifications.
    pub enable_notifications: bool,
}

impl KubernetesSettings {
    /// Whether these are the settings of a fresh installation.
    pub open spec fn is_default(self) -> bool {
        &&& self.auto_refresh_interval == 30
        &&& self.default_namespace@ == "default"@
        &&& self.show_system_namespaces
        &&& self.max_items_per_page == 100
        &&& self.watch_mode_enabled
        &&& self.kubeconfig_path@ == Seq::<char>::empty()
        &&& self.context@ == Seq::<char>::empty()
        &&& self.show_metrics
        &&& self.enable_notifications
    }
}

impl Default for KubernetesSettings {
    fn default() -> (settings: Self)
        ensures
            settings.is_default(),
    {
        KubernetesSettings {
            auto_refresh_interval: 30,
            default_namespace: String::from_str("default"),
            show_system_namespaces: true,
            max_items_per_page: 100,
            watch_mode_enabled: true,
            kubeconfig_path: String::new(),
            context: String::new(),
            show_metrics: true,
            enable_notifications: true,
        }
    }
}

/// How the YAML pane behaves.
#[derive(Debug, Clone, Copy, PartialEq, Eq, Structural)]
pub struct EditorSettings {
    /// Whether YAML is highlighted.
    pub syntax_highlighting: bool,
    /// Whether lines are numbered.
    pub show_line_numbers: bool,
    /// The width of one level of indentation.
    pub tab_size: usize,
    /// Whether indentation is made of spaces.
    pub use_spaces: bool,
    /// Whether YAML is validated.
    pub yaml_validation: bool,
    /// Whether long lines wrap.
    pub word_wrap: bool,
    /// Whether whitespace is drawn.
    pub show_whitespace: bool,
}

impl EditorSettings {
    /// The settings of a fresh installation.
    pub open spec fn fresh() -> EditorSettings {
        EditorSettings {
            syntax_highlighting: true,
            show_line_numbers: true,
            tab_size: 2,
            use_spaces: true,
            yaml_validation: true,
            word_wrap: false,
            show_whitespace: false,
        }
    }
}

impl Default for EditorSettings {
    fn default() -> (settings: Self)
        ensures
            settings == Self::fresh(),
    {
        EditorSettings {
            syntax_highlighting: true,
            show_line_numbers: true,
            tab_size: 2,
            use_spaces: true,
            yaml_validation: true,
            word_wrap: false,
            show_whitespace: false,
        }
    }
}

} // verus!
