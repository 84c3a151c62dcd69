//! The colours of each theme, as `0xRRGGBB` values.

use vstd::prelude::*;
use crate::settings::Theme;

verus! {

/// The palette of a theme. Each colour is a `0xRRGGBB` value.
#[derive(Debug, Clone, Copy, PartialEq, Eq, Structural)]
pub struct ThemeColors {
    /// The window background.
    pub bg_app: u32,
    /// The sidebar background.
    pub bg_sidebar: u32,
    /// The background of panels.
    pub bg_panel: u32,
    /// The background of buttons and fields.
    pub bg_element: u32,
    /// A button or field under the pointer.
    pub bg_element_hover: u32,
    /// A button or field that is pressed or selected.
    pub bg_element_active: u32,
    /// Headings and values.
    pub text_primary: u32,
    /// Running text.
    pub text_secondary: u32,
    /// Labels and hints.
    pub text_muted: u32,
    /// Text on an accent background.
    pub text_inverse: u32,
    /// Lines between panels.
    pub border: u32,
    /// The accent colour.
    pub accent: u32,
    /// The accent colour under the pointer.
    pub accent_hover: u32,
    /// A good status.
    pub status_ok: u32,
    /// A failed status.
    pub status_error: u32,
    /// A status that needs attention.
    pub status_warning: u32,
    /// A neutral notice.
    pub status_info: u32,
    /// A borderless element under the pointer.
    pub ghost_element_hover: u32,
    /// The close button of the title bar.
    pub traffic_light_close: u32,
    /// The minimize button of the title bar.
    pub traffic_light_minimize: u32,
    /// The maximize button of the title bar.
    pub traffic_light_maximize: u32,
}

impl ThemeColors {
    /// Whether every colour is a value of three bytes.
    pub open spec fn is_rgb(self) -> bool {
        &&& self.bg_app <= 0xffffff
        &&& self.bg_sidebar <= 0xffffff
        &&& self.bg_panel <= 0xffffff
        &&& self.bg_element <= 0xffffff
        &&& self.bg_element_hover <= 0xffffff
        &&& self.bg_element_active <= 0xffffff
        &&& self.text_primary <= 0xffffff
        &&& self.text_secondary <= 0xffffff
        &&& self.text_muted <= 0xffffff
        &&& self.text_inverse <= 0xffffff
        &&& self.border <= 0xffffff
        &&& self.accent <= 0xffffff
        &&& self.accent_hover <= 0xffffff
        &&& self.status_ok <= 0xffffff
        &&& self.status_error <= 0xffffff
        &&& self.status_warning <= 0xffffff
        &&& self.status_info <= 0xffffff
        &&& self.ghost_element_hover <= 0xffffff
        &&& self.traffic_light_close <= 0xffffff
        &&& self.traffic_light_minimize <= 0xffffff
        &&& self.traffic_light_maximize <= 0xffffff
    }
}

/// The palette each theme is drawn with.
pub open spec fn palette(theme: Theme) -> ThemeColors {
    match theme {
        Theme::Dark => ThemeColors {
            bg_app: 0x1e1e1e,
            bg_sidebar: 0x252526,
            bg_panel: 0x2d2d30,
            bg_element: 0x3e3e3e,
            bg_element_hover: 0x505050,
            bg_element_active: 0x0e639c,
            text_primary: 0xe0e0e0,
            text_secondary: 0xcccccc,
            text_muted: 0x999999,
            text_inverse: 0xffffff,
            border: 0x3e3e3e,
            accent: 0x0e639c,
            accent_hover: 0x1177bb,
            status_ok: 0x379d5c,
            status_error: 0xc42b1c,
            status_warning: 0xcca700,
            status_info: 0x4ec9b0,
            ghost_element_hover: 0x3a3d41,
            traffic_light_close: 0xc42b1c,
            traffic_light_minimize: 0xcccccc,
            traffic_light_maximize: 0xcccccc,
        },
        Theme::Light => ThemeColors {
            bg_app: 0xffffff,
            bg_sidebar: 0xf3f3f3,
            bg_panel: 0xf8f8f8,
            bg_element: 0xe5e5e5,
            bg_element_hover: 0xd0d0d0,
            bg_element_active: 0x0078d4,
            text_primary: 0x202020,
            text_secondary: 0x444444,
            text_muted: 0x666666,
            text_inverse: 0xffffff,
            border: 0xe5e5e5,
            accent: 0x0078d4,
            accent_hover: 0x006cc1,
            status_ok: 0x107c10,
            status_error: 0xd13438,
            status_warning: 0x795e00,
            status_info: 0x005a9e,
            ghost_element_hover: 0xe8e8e8,
            traffic_light_close: 0xd13438,
            traffic_light_minimize: 0x666666,
            traffic_light_maximize: 0x666666,
        },
        Theme::HighContrast => ThemeColors {
            bg_app: 0x000000,
            bg_sidebar: 0x000000,
            bg_panel: 0x000000,
            bg_element: 0x000000,
            bg_element_hover: 0x1a1a1a,
            bg_element_active: 0xffffff,
            text_primary: 0xffffff,
            text_secondary: 0xffffff,
            text_muted: 0xffffff,
            text_inverse: 0x000000,
            border: 0xffffff,
            accent: 0xffff00,
            accent_hover: 0xffff00,
            status_ok: 0x00ff00,
            status_error: 0xff0000,
            status_warning: 0xffff00,
            status_info: 0x00ffff,
            ghost_element_hover: 0x1a1a1a,
            traffic_light_close: 0xff0000,
            traffic_light_minimize: 0xffffff,
            traffic_light_maximize: 0xffffff,
        },
    }
}

/// A type that has a palette.
pub trait ThemeExt {
    /// The palette.
    spec fn palette_of(&self) -> ThemeColors;

    /// The palette to draw with.
    fn colors(&self) -> (colors: ThemeColors)
        ensures
            colors == self.palette_of(),
    ;
}

impl ThemeExt for Theme {
    open spec fn palette_of(&self) -> ThemeColors {
        palette(*self)
    }

    fn colors(&self) -> (colors: ThemeColors) {
        match self {
            Theme::Dark => ThemeColors {
                bg_app: 0x1e1e1e,
                bg_sidebar: 0x252526,
                bg_panel: 0x2d2d30,
                bg_element: 0x3e3e3e,
                bg_element_hover: 0x505050,
                bg_element_active: 0x0e639c,
                text_primary: 0xe0e0e0,
                text_secondary: 0xcccccc,
                text_muted: 0x999999,
                text_inverse: 0xffffff,
                border: 0x3e3e3e,
                accent: 0x0e639c,
                accent_hover: 0x1177bb,
                status_ok: 0x379d5c,
                status_error: 0xc42b1c,
                status_warning: 0xcca700,
                status_info: 0x4ec9b0,
                ghost_element_hover: 0x3a3d41,
                traffic_light_close: 0xc42b1c,
                traffic_light_minimize: 0xcccccc,
                traffic_light_maximize: 0xcccccc,
            },
            Theme::Light => ThemeColors {
                bg_app: 0xffffff,
                bg_sidebar: 0xf3f3f3,
                bg_panel: 0xf8f8f8,
                bg_element: 0xe5e5e5,
                bg_element_hover: 0xd0d0d0,
                bg_element_active: 0x0078d4,
                text_primary: 0x202020,
                text_secondary: 0x444444,
                text_muted: 0x666666,
                text_inverse: 0xffffff,
                border: 0xe5e5e5,
                accent: 0x0078d4,
                accent_hover: 0x006cc1,
                status_ok: 0x107c10,
                status_error: 0xd13438,
                status_warning: 0x795e00,
                status_info: 0x005a9e,
                ghost_element_hover: 0xe8e8e8,
                traffic_light_close: 0xd13438,
                traffic_light_minimize: 0x666666,
                traffic_light_maximize: 0x666666,
            },
            Theme::HighContrast => ThemeColors {
                bg_app: 0x000000,
                bg_sidebar: 0x000000,
                bg_panel: 0x000000,
                bg_element: 0x000000,
                bg_element_hover: 0x1a1a1a,
                bg_element_active: 0xffffff,
                text_primary: 0xffffff,
                text_secondary: 0xffffff,
                text_muted: 0xffffff,
                text_inverse: 0x000000,
                border: 0xffffff,
                accent: 0xffff00,
                accent_hover: 0xffff00,
                status_ok: 0x00ff00,
                status_error: 0xff0000,
                status_warning: 0xffff00,
                status_info: 0x00ffff,
                ghost_element_hover: 0x1a1a1a,
                traffic_light_close: 0xff0000,
                traffic_light_minimize: 0xffffff,
                traffic_light_maximize: 0xffffff,
            },
        }
    }
}

/// Every colour of every theme is a value of three bytes.
pub proof fn lemma_palettes_are_rgb(theme: Theme)
    ensures
        palette(theme).is_rgb(),
{
}

} // verus!
