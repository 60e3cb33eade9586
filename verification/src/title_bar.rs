//! The window title bar: the platform policy for the custom chrome — bar
//! visibility and height, left padding, double-click-to-zoom, and the
//! cluster of window control icons with their glyphs, window-manager roles
//! and hover styling. Heights and paddings are in whole pixels.

use vstd::prelude::*;

verus! {

/// Height of the title bar while it is visible, in pixels.
pub const TITLE_BAR_HEIGHT: u64 = 40;

/// Left padding of the bar on macOS, wide enough to clear the native
/// traffic-light controls, in pixels.
pub const MACOS_LEFT_PADDING: u64 = 80;

/// Left padding of the bar on every other platform, in pixels.
pub const DEFAULT_LEFT_PADDING: u64 = 12;

/// The host platforms the window chrome distinguishes.
#[derive(PartialEq, Eq, Clone, Copy, Structural, Debug)]
pub enum Platform {
    MacOs,
    Linux,
    Other,
}

/// A tagged region of the window surface that the host window manager
/// treats specially.
#[derive(PartialEq, Eq, Clone, Copy, Structural, Debug)]
pub enum WindowControlArea {
    Drag,
    Min,
    Max,
    Close,
}

/// The glyph drawn inside a window control icon.
#[derive(PartialEq, Eq, Clone, Copy, Structural, Debug)]
pub enum IconGlyph {
    WindowMinimize,
    WindowRestore,
    WindowMaximize,
    WindowClose,
}

/// How a control icon is tinted while hovered: solid red for close,
/// otherwise the theme's secondary color lightened in dark mode and
/// darkened in light mode.
#[derive(PartialEq, Eq, Clone, Copy, Structural, Debug)]
pub enum HoverTint {
    Red,
    LightenedSecondary,
    DarkenedSecondary,
}

/// One interactive icon of the window controls cluster.
#[derive(PartialEq, Eq, Clone, Copy, Structural, Debug)]
pub enum ControlIcon {
    Minimize,
    Restore,
    Maximize,
    Close,
}

/// The stable name of a control icon, as a character sequence.
pub open spec fn icon_id(icon: ControlIcon) -> Seq<char> {
    match icon {
        ControlIcon::Minimize => "minimize"@,
        ControlIcon::Restore => "restore"@,
        ControlIcon::Maximize => "maximize"@,
        ControlIcon::Close => "close"@,
    }
}

impl ControlIcon {
    pub fn minimize() -> (r: Self)
        ensures
            r == ControlIcon::Minimize,
    {
        Self::Minimize
    }

    pub fn restore() -> (r: Self)
        ensures
            r == ControlIcon::Restore,
    {
        Self::Restore
    }

    pub fn maximize() -> (r: Self)
        ensures
            r == ControlIcon::Maximize,
    {
        Self::Maximize
    }

    pub fn close() -> (r: Self)
        ensures
            r == ControlIcon::Close,
    {
        Self::Close
    }

    /// The stable name of this icon.
    pub fn id(&self) -> (r: &'static str)
        ensures
            r@ == icon_id(*self),
    {
        match self {
            Self::Minimize => "minimize",
            Self::Restore => "restore",
            Self::Maximize => "maximize",
            Self::Close => "close",
        }
    }

    /// The glyph this icon is drawn with.
    pub fn icon(&self) -> (r: IconGlyph)
        ensures
            r == (match *self {
                ControlIcon::Minimize => IconGlyph::WindowMinimize,
                ControlIcon::Restore => IconGlyph::WindowRestore,
                ControlIcon::Maximize => IconGlyph::WindowMaximize,
                ControlIcon::Close => IconGlyph::WindowClose,
            }),
    {
        match self {
            Self::Minimize => IconGlyph::WindowMinimize,
            Self::Restore => IconGlyph::WindowRestore,
            Self::Maximize => IconGlyph::WindowMaximize,
            Self::Close => IconGlyph::WindowClose,
        }
    }

    /// The window-manager role of this icon's region: close closes, maximize
    /// and restore share the maximize role, minimize minimizes.
    pub fn control_area(&self) -> (r: WindowControlArea)
        ensures
            r == (match *self {
                ControlIcon::Close => WindowControlArea::Close,
                ControlIcon::Maximize => WindowControlArea::Max,
                ControlIcon::Restore => WindowControlArea::Max,
                ControlIcon::Minimize => WindowControlArea::Min,
            }),
    {
        match self {
            Self::Close => WindowControlArea::Close,
            Self::Maximize | Self::Restore => WindowControlArea::Max,
            Self::Minimize => WindowControlArea::Min,
        }
    }

    /// The hover tint of this icon: red for close, otherwise a neutral tint
    /// derived from the theme, lightened in dark mode, darkened in light
    /// mode.
    pub fn hover_tint(&self, dark_mode: bool) -> (r: HoverTint)
        ensures
            r == (if *self == ControlIcon::Close {
                HoverTint::Red
            } else if dark_mode {
                HoverTint::LightenedSecondary
            } else {
                HoverTint::DarkenedSecondary
            }),
    {
        match self {
            Self::Close => HoverTint::Red,
            _ => {
                if dark_mode {
                    HoverTint::LightenedSecondary
                } else {
                    HoverTint::DarkenedSecondary
                }
            },
        }
    }
}

/// The window controls cluster: empty on macOS, where the native controls
/// are used; elsewhere minimize, then maximize or restore as the window is
/// maximized or not, then close.
pub open spec fn window_controls(platform: Platform, maximized: bool) -> Seq<ControlIcon> {
    if platform == Platform::MacOs {
        Seq::<ControlIcon>::empty()
    } else {
        seq![
            ControlIcon::Minimize,
            if maximized { ControlIcon::Restore } else { ControlIcon::Maximize },
            ControlIcon::Close,
        ]
    }
}

/// Whether the bar is visible: it disappears only on a fullscreen macOS
/// window, where the native chrome takes over.
pub open spec fn title_bar_visible(platform: Platform, fullscreen: bool) -> bool {
    !(platform == Platform::MacOs && fullscreen)
}

/// The rendered height of the bar: its full height while visible, zero
/// while collapsed.
pub open spec fn spec_title_bar_height(platform: Platform, fullscreen: bool) -> u64 {
    if title_bar_visible(platform, fullscreen) {
        TITLE_BAR_HEIGHT
    } else {
        0
    }
}

/// The left padding of the bar for a platform.
pub open spec fn spec_left_padding(platform: Platform) -> u64 {
    if platform == Platform::MacOs {
        MACOS_LEFT_PADDING
    } else {
        DEFAULT_LEFT_PADDING
    }
}

/// Everything the chrome needs to draw the bar on one render pass.
pub struct TitleBarLayout {
    /// Whether the bar is drawn at all.
    pub visible: bool,
    /// Rendered height of the bar, in pixels.
    pub height: u64,
    /// Left padding of the bar, in pixels.
    pub left_padding: u64,
    /// Whether double-clicking the bar zooms the window.
    pub zoom_on_double_click: bool,
    /// The window control icons, left to right.
    pub controls: Vec<ControlIcon>,
}

/// The title bar component. It keeps no state of its own: every render
/// pass computes the layout afresh from the window and platform.
pub struct AppTitleBar {}

impl AppTitleBar {
    pub fn new() -> (r: Self)
        ensures
            r == (AppTitleBar {}),
    {
        Self {}
    }

    /// The layout of the bar for one render pass, from the platform and the
    /// window's fullscreen and maximized flags.
    pub fn layout(&self, platform: Platform, fullscreen: bool, maximized: bool) -> (l:
        TitleBarLayout)
        ensures
            l.visible == title_bar_visible(platform, fullscreen),
            l.height == spec_title_bar_height(platform, fullscreen),
            l.left_padding == spec_left_padding(platform),
            l.zoom_on_double_click == (platform == Platform::Linux),
            l.controls@ == window_controls(platform, maximized),
    {
        let visible = !(platform == Platform::MacOs && fullscreen);
        TitleBarLayout {
            visible,
            height: if visible {
                TITLE_BAR_HEIGHT
            } else {
                0
            },
            left_padding: if platform == Platform::MacOs {
                MACOS_LEFT_PADDING
            } else {
                DEFAULT_LEFT_PADDING
            },
            zoom_on_double_click: platform == Platform::Linux,
            controls: window_controls_vec(platform, maximized),
        }
    }
}

/// The window control icons for a platform and maximized flag, left to
/// right.
pub fn window_controls_vec(platform: Platform, maximized: bool) -> (controls: Vec<ControlIcon>)
    ensures
        controls@ == window_controls(platform, maximized),
{
    let mut controls: Vec<ControlIcon> = Vec::new();
    if platform != Platform::MacOs {
        controls.push(ControlIcon::minimize());
        controls.push(if maximized {
            ControlIcon::restore()
        } else {
            ControlIcon::maximize()
        });
        controls.push(ControlIcon::close());
    }
    proof {
        assert(controls@ =~= window_controls(platform, maximized));
    }
    controls
}

/// Law: on a fullscreen macOS window the bar collapses — zero height and
/// not visible; in every other situation it keeps its full height and
/// stays visible.
pub proof fn lemma_macos_fullscreen_collapses(platform: Platform, fullscreen: bool)
    ensures
        platform == Platform::MacOs && fullscreen ==> !title_bar_visible(platform, fullscreen)
            && spec_title_bar_height(platform, fullscreen) == 0,
        !(platform == Platform::MacOs && fullscreen) ==> title_bar_visible(platform, fullscreen)
            && spec_title_bar_height(platform, fullscreen) == TITLE_BAR_HEIGHT,
{
}

/// Law: away from macOS the controls cluster holds exactly three icons —
/// minimize, then maximize or restore, then close — and the middle icon is
/// restore exactly when the window is maximized.
pub proof fn lemma_window_controls_cluster(platform: Platform, maximized: bool)
    requires
        platform != Platform::MacOs,
    ensures
        window_controls(platform, maximized).len() == 3,
        window_controls(platform, maximized)[0] == ControlIcon::Minimize,
        window_controls(platform, maximized)[1] == (if maximized {
            ControlIcon::Restore
        } else {
            ControlIcon::Maximize
        }),
        window_controls(platform, maximized)[2] == ControlIcon::Close,
{
}

} // verus!
