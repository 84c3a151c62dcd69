use kubespark::settings::{EditorSettings, KubernetesSettings, SettingsTab, Theme};
use kubespark::theme::ThemeExt;

#[test]
fn themes() {
    assert_eq!(Theme::all(), vec![Theme::Dark, Theme::Light, Theme::HighContrast]);
    assert_eq!(Theme::Dark.name(), "Dark");
    assert_eq!(Theme::Light.name(), "Light");
    assert_eq!(Theme::HighContrast.name(), "High Contrast");
}

#[test]
fn kubernetes_defaults() {
    let settings = KubernetesSettings::default();
    assert_eq!(settings.auto_refresh_interval, 30);
    assert_eq!(settings.default_namespace, "default");
    assert!(settings.show_system_namespaces);
    assert_eq!(settings.max_items_per_page, 100);
    assert!(settings.watch_mode_enabled);
    assert_eq!(settings.kubeconfig_path, "");
    assert_eq!(settings.context, "");
    assert!(settings.show_metrics);
    assert!(settings.enable_notifications);
}

#[test]
fn editor_defaults() {
    let settings = EditorSettings::default();
    assert!(settings.syntax_highlighting);
    assert!(settings.show_line_numbers);
    assert_eq!(settings.tab_size, 2);
    assert!(settings.use_spaces);
    assert!(settings.yaml_validation);
    assert!(!settings.word_wrap);
    assert!(!settings.show_whitespace);
}

#[test]
fn settings_tabs() {
    assert_eq!(
        SettingsTab::all(),
        vec![
            SettingsTab::Appearance,
            SettingsTab::Kubernetes,
            SettingsTab::Editor,
            SettingsTab::Window
        ]
    );
    let tabs = SettingsTab::all();
    let names: Vec<&str> = tabs.iter().map(|t| t.name()).collect();
    assert_eq!(names, vec!["Appearance", "Kubernetes", "Editor", "Window"]);
}

#[test]
fn palettes() {
    let dark = Theme::Dark.colors();
    assert_eq!(dark.bg_app, 0x1e1e1e);
    assert_eq!(dark.accent, 0x0e639c);
    assert_eq!(dark.status_ok, 0x379d5c);
    assert_eq!(dark.traffic_light_close, 0xc42b1c);
    let light = Theme::Light.colors();
    assert_eq!(light.bg_app, 0xffffff);
    assert_eq!(light.text_primary, 0x202020);
    assert_eq!(light.status_warning, 0x795e00);
    let contrast = Theme::HighContrast.colors();
    assert_eq!(contrast.bg_app, 0x000000);
    assert_eq!(contrast.accent, 0xffff00);
    assert_eq!(contrast.status_info, 0x00ffff);
    assert_eq!(contrast.text_inverse, 0x000000);
    for theme in Theme::all() {
        let c = theme.colors();
        for value in [c.bg_app, c.bg_sidebar, c.bg_panel, c.border, c.text_muted, c.accent_hover] {
            assert!(value <= 0xffffff);
        }
    }
}
