//! The configuration of a display and what it asks of the window system.

use vstd::prelude::*;

verus! {

/// Options for creating a display.
#[derive(Clone, Debug, PartialEq, Eq)]
pub struct Options {
    /// Width of the window in pixels.
    pub width: u32,
    /// Height of the window in pixels.
    pub height: u32,
    /// Title of the window.
    pub title: String,
    /// Whether the window occupies all of the primary monitor.
    pub fullscreen: bool,
    /// Whether the window has a frame. Meaningful when not in fullscreen mode.
    pub decorated: bool,
    /// Number of samples per pixel, a power of two; `None` disables multisampling.
    pub msaa: Option<u32>,
    /// Whether a buffer swap waits for a monitor refresh.
    pub vsync: bool,
}

/// The OpenGL profile to create a context for.
#[derive(Clone, Copy, Debug, PartialEq, Eq)]
pub enum OpenGlProfileHint {
    Any,
    Core,
    Compat,
}

/// A hint that shapes the next window to be created.
#[derive(Clone, Copy, Debug, PartialEq, Eq)]
pub enum WindowHint {
    /// Whether the user can resize the window.
    Resizable(bool),
    /// Whether the window has a frame.
    Decorated(bool),
    /// The number of samples per pixel; `None` leaves the choice open.
    Samples(Option<u32>),
    /// The major and minor version of the context's client API.
    ContextVersion(u32, u32),
    /// Whether the context is forward compatible.
    OpenGlForwardCompat(bool),
    /// The profile of the context.
    OpenGlProfile(OpenGlProfileHint),
    /// Whether the context is a debug context.
    OpenGlDebugContext(bool),
}

/// How a context is set up once it is current.
#[derive(Clone, Copy, Debug, PartialEq, Eq)]
pub struct ContextConfig {
    /// The number of monitor refreshes that a buffer swap waits for.
    pub swap_interval: u32,
    /// Left edge of the viewport.
    pub viewport_x: i32,
    /// Lower edge of the viewport.
    pub viewport_y: i32,
    /// Width of the viewport in pixels.
    pub viewport_width: u32,
    /// Height of the viewport in pixels.
    pub viewport_height: u32,
    /// Whether multisampling is switched on.
    pub multisample: bool,
}

/// How a window occupies the screen.
#[derive(Clone, Copy, Debug, PartialEq, Eq)]
pub enum WindowMode {
    /// The window covers the primary monitor.
    FullScreen,
    /// The window floats on the desktop.
    Windowed,
}

/// The window that a display asks the window system for.
#[derive(Clone, Debug, PartialEq, Eq)]
pub struct WindowRequest {
    pub width: u32,
    pub height: u32,
    pub title: String,
    pub mode: WindowMode,
}

/// The resolution of a monitor's current video mode, in pixels.
#[derive(Clone, Copy, Debug, PartialEq, Eq)]
pub struct VideoMode {
    pub width: u32,
    pub height: u32,
}

/// Where a freshly created window and the cursor go.
#[derive(Clone, Copy, Debug, PartialEq, Eq)]
pub struct Placement {
    /// Horizontal position of the window's left edge on the monitor.
    pub x: i32,
    /// Vertical position of the window's top edge on the monitor.
    pub y: i32,
    /// Twice the horizontal cursor coordinate inside the window.
    pub cursor_x2: u32,
    /// Twice the vertical cursor coordinate inside the window.
    pub cursor_y2: u32,
}

/// Half of `extent`, rounded toward zero.
pub open spec fn half(extent: int) -> int {
    if extent >= 0 {
        extent / 2
    } else {
        -((-extent) / 2)
    }
}

/// The offset that centres a window of size `window` on a monitor of size
/// `monitor`: half of what the monitor has left over, negative where the
/// window is the larger one.
pub open spec fn centered(monitor: u32, window: u32) -> int {
    half(monitor - window)
}

/// A centred window has the same room on either side of it, up to the one
/// pixel that an odd difference in size leaves over, and its offset fits the
/// window system's coordinates whatever the two sizes are.
pub proof fn lemma_centered_margins(monitor: u32, window: u32)
    ensures
        ({
            let near = centered(monitor, window);
            let far = monitor - window - near;
            &&& -1 <= far - near <= 1
            &&& far == near <==> (monitor - window) % 2 == 0
        }),
        -i32::MAX <= centered(monitor, window) <= i32::MAX,
{
}

/// Computes the centring offset along one axis.
pub fn center(monitor: u32, window: u32) -> (offset: i32)
    ensures
        offset == centered(monitor, window),
{
    if monitor >= window {
        let room: u32 = (monitor - window) / 2;
        room as i32
    } else {
        let excess: u32 = (window - monitor) / 2;
        -(excess as i32)
    }
}

impl Options {
    /// The window mode that these options ask for.
    pub open spec fn window_mode(self) -> WindowMode {
        if self.fullscreen {
            WindowMode::FullScreen
        } else {
            WindowMode::Windowed
        }
    }

    /// The window request that these options stand for.
    pub open spec fn window_request(self) -> WindowRequest {
        WindowRequest {
            width: self.width,
            height: self.height,
            title: self.title,
            mode: self.window_mode(),
        }
    }

    /// The placement of the window on a monitor in video mode `mode`: the
    /// window centred on the monitor, the cursor in the middle of the window.
    pub open spec fn placement(self, mode: VideoMode) -> Placement {
        Placement {
            x: centered(mode.width, self.width) as i32,
            y: centered(mode.height, self.height) as i32,
            cursor_x2: self.width,
            cursor_y2: self.height,
        }
    }

    /// The hints that every display sets, in the order in which it sets them.
    pub open spec fn base_hints(self) -> Seq<WindowHint> {
        seq![
            WindowHint::Resizable(false),
            WindowHint::Decorated(self.decorated),
            WindowHint::Samples(self.msaa),
            WindowHint::ContextVersion(4, 6),
            WindowHint::OpenGlForwardCompat(true),
            WindowHint::OpenGlProfile(OpenGlProfileHint::Core),
        ]
    }

    /// The hints of these options: the base hints, followed by the request
    /// for a debug context where `debug` is set.
    pub open spec fn hints(self, debug: bool) -> Seq<WindowHint> {
        if debug {
            self.base_hints().push(WindowHint::OpenGlDebugContext(true))
        } else {
            self.base_hints()
        }
    }

    /// The context set-up of these options: a swap waits for one refresh
    /// with vsync and for none without, the viewport is the whole window,
    /// and multisampling is on exactly when a sample count was asked for.
    pub open spec fn context_config(self) -> ContextConfig {
        ContextConfig {
            swap_interval: if self.vsync { 1 } else { 0 },
            viewport_x: 0,
            viewport_y: 0,
            viewport_width: self.width,
            viewport_height: self.height,
            multisample: self.msaa is Some,
        }
    }

    /// Lists the window hints to set, on top of the defaults, before the
    /// window is created: a fixed-size window, framed as configured, with the
    /// configured sample count and an OpenGL 4.6 forward-compatible core
    /// context, which is a debug context where `debug` is set.
    pub fn config(&self, debug: bool) -> (hints: Vec<WindowHint>)
        ensures
            hints@ == self.hints(debug),
    {
        let mut hints: Vec<WindowHint> = Vec::new();
        hints.push(WindowHint::Resizable(false));
        hints.push(WindowHint::Decorated(self.decorated));
        hints.push(WindowHint::Samples(self.msaa));
        hints.push(WindowHint::ContextVersion(4, 6));
        hints.push(WindowHint::OpenGlForwardCompat(true));
        hints.push(WindowHint::OpenGlProfile(OpenGlProfileHint::Core));
        if debug {
            hints.push(WindowHint::OpenGlDebugContext(true));
        }
        assert(hints@ =~= self.hints(debug));
        hints
    }

    /// Describes how to set up the context of the created window.
    pub fn config_context(&self) -> (config: ContextConfig)
        ensures
            config == self.context_config(),
    {
        ContextConfig {
            swap_interval: if self.vsync { 1 } else { 0 },
            viewport_x: 0,
            viewport_y: 0,
            viewport_width: self.width,
            viewport_height: self.height,
            multisample: self.msaa.is_some(),
        }
    }

    /// Describes the window to create: the configured size and title, on the
    /// whole primary monitor when `fullscreen` is set and windowed otherwise.
    pub fn create(&self) -> (request: WindowRequest)
        ensures
            request == self.window_request(),
    {
        let mode = if self.fullscreen {
            WindowMode::FullScreen
        } else {
            WindowMode::Windowed
        };
        WindowRequest { width: self.width, height: self.height, title: self.title.clone(), mode }
    }

    /// Places the created window on a monitor whose video mode is `mode`.
    ///
    /// The window is centred on the monitor along both axes and the cursor is
    /// put in the middle of the window. Cursor coordinates are given doubled,
    /// so that the middle of an odd extent is exact.
    pub fn place(&self, mode: VideoMode) -> (placement: Placement)
        ensures
            placement == self.placement(mode),
            placement.x == centered(mode.width, self.width),
            placement.y == centered(mode.height, self.height),
            placement.cursor_x2 == self.width,
            placement.cursor_y2 == self.height,
    {
        Placement {
            x: center(mode.width, self.width),
            y: center(mode.height, self.height),
            cursor_x2: self.width,
            cursor_y2: self.height,
        }
    }
}

} // verus!
