//! The window descriptor and its platform-specific chrome.

use vstd::prelude::*;

verus! {

/// Initial inner width of the window, in logical units.
pub const INITIAL_WIDTH: u32 = 1000;

/// Initial inner height of the window, in logical units.
pub const INITIAL_HEIGHT: u32 = 800;

/// Smallest inner width the window may be resized to, in logical units.
pub const MIN_WIDTH: u32 = 900;

/// Smallest inner height the window may be resized to, in logical units.
pub const MIN_HEIGHT: u32 = 700;

/// Horizontal offset of the traffic-light controls, in logical units.
pub const TRAFFIC_LIGHT_X: u32 = 20;

/// Vertical offset of the traffic-light controls, in logical units.
pub const TRAFFIC_LIGHT_Y: u32 = 24;

/// The operating system the shell is built for.
#[derive(Clone, Copy, Debug, PartialEq, Eq, Structural)]
pub enum Platform {
    MacOs,
    Windows,
    Other,
}

/// How the titlebar of a window is drawn.
#[derive(Clone, Copy, Debug, PartialEq, Eq, Structural)]
pub enum TitleBarStyle {
    /// The titlebar occupies its own strip above the content.
    Visible,
    /// The titlebar is transparent and shows the window's background.
    Transparent,
    /// The titlebar is drawn transparently over the content area.
    Overlay,
}

/// A size in logical units, which the display scales when it renders.
#[derive(Clone, Copy, Debug, PartialEq, Eq, Structural)]
pub struct LogicalSize {
    pub width: u32,
    pub height: u32,
}

/// A position in logical units, measured from the window's top-left corner.
#[derive(Clone, Copy, Debug, PartialEq, Eq, Structural)]
pub struct LogicalPosition {
    pub x: u32,
    pub y: u32,
}

/// Everything the shell asks of its one window.
///
/// A field of type `Option` that is `None` is a setting the shell does not
/// touch: the windowing framework keeps its own default for it.
#[derive(Clone, Copy, Debug)]
pub struct WindowConfig {
    /// Name by which the framework identifies the window.
    pub label: &'static str,
    /// Text of the window's title.
    pub title: &'static str,
    /// Inner size of the window when it opens.
    pub inner_size: LogicalSize,
    /// Smallest inner size the window may be resized to.
    pub min_inner_size: LogicalSize,
    /// Requested titlebar style.
    pub title_bar_style: Option<TitleBarStyle>,
    /// Requested place of the close / minimise / maximise cluster.
    pub traffic_light_position: Option<LogicalPosition>,
    /// Requested presence of the native window decorations.
    pub decorations: Option<bool>,
    /// Whether the native title text is hidden.
    pub hidden_title: bool,
}

impl LogicalSize {
    /// Both dimensions are positive.
    pub open spec fn is_positive(self) -> bool {
        self.width > 0 && self.height > 0
    }
}

impl WindowConfig {
    /// The descriptor's invariant: every dimension of the window is positive.
    pub open spec fn well_formed(self) -> bool {
        self.inner_size.is_positive() && self.min_inner_size.is_positive()
    }

    /// `self` is the descriptor of the shell's window on `platform`.
    ///
    /// Label, title and sizes are the same everywhere, and the native title
    /// text is always hidden. An overlay titlebar with the traffic-light
    /// controls at (20, 24) is requested on macOS and nowhere else; the
    /// removal of the native decorations on Windows and nowhere else.
    pub open spec fn is_for(self, platform: Platform) -> bool {
        &&& self.label@ == "main"@
        &&& self.title@ == "Transparent Titlebar Window"@
        &&& self.inner_size == LogicalSize { width: 1000, height: 800 }
        &&& self.min_inner_size == LogicalSize { width: 900, height: 700 }
        &&& self.title_bar_style == if platform is MacOs {
            Some(TitleBarStyle::Overlay)
        } else {
            None
        }
        &&& self.traffic_light_position == if platform is MacOs {
            Some(LogicalPosition { x: 20, y: 24 })
        } else {
            None
        }
        &&& self.decorations == if platform is Windows {
            Some(false)
        } else {
            None
        }
        &&& self.hidden_title
    }
}

/// The descriptor of the shell's window on `platform`.
pub fn window_config(platform: Platform) -> (config: WindowConfig)
    ensures
        config.is_for(platform),
        config.well_formed(),
{
    let title_bar_style = match platform {
        Platform::MacOs => Some(TitleBarStyle::Overlay),
        _ => None,
    };
    let traffic_light_position = match platform {
        Platform::MacOs => Some(LogicalPosition { x: TRAFFIC_LIGHT_X, y: TRAFFIC_LIGHT_Y }),
        _ => None,
    };
    let decorations = match platform {
        Platform::Windows => Some(false),
        _ => None,
    };
    WindowConfig {
        label: "main",
        title: "Transparent Titlebar Window",
        inner_size: LogicalSize { width: INITIAL_WIDTH, height: INITIAL_HEIGHT },
        min_inner_size: LogicalSize { width: MIN_WIDTH, height: MIN_HEIGHT },
        title_bar_style,
        traffic_light_position,
        decorations,
        hidden_title: true,
    }
}

} // verus!
