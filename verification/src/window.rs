//! The description of the window to open, and the builder that fills it in.

use crate::config::config_template;
use crate::icon::rgba_fits;
use crate::icon::IconView;
use crate::icon::WindowIcon;
use crate::lifecycle::Lifecycle;
use crate::model::Model;
use vstd::prelude::*;

verus! {

/// Everything that is asked of the window before it exists.
pub struct WindowInformation {
    /// Whether the window's background can be seen through.
    pub transparent: bool,
    /// Whether the window covers the whole screen, without borders.
    pub fullscreen: bool,
    /// Whether the user may resize the window.
    pub resizable: bool,
    /// Width and height of the drawable area, where one is asked for.
    pub size: Option<(usize, usize)>,
    /// Text of the title bar.
    pub title: String,
    /// Icon of the window.
    pub icon: Option<WindowIcon>,
    /// Whether the pointer is drawn while it is over the window.
    pub cursor_visible: bool,
    /// Whether the pointer is kept inside the window.
    pub cursor_grabbed: bool,
}

/// The mathematical content of a [`WindowInformation`].
pub struct WindowView {
    pub transparent: bool,
    pub fullscreen: bool,
    pub resizable: bool,
    pub size: Option<(usize, usize)>,
    pub title: Seq<char>,
    pub icon: Option<IconView>,
    pub cursor_visible: bool,
    pub cursor_grabbed: bool,
}

impl View for WindowInformation {
    type V = WindowView;

    open spec fn view(&self) -> WindowView {
        WindowView {
            transparent: self.transparent,
            fullscreen: self.fullscreen,
            resizable: self.resizable,
            size: self.size,
            title: self.title@,
            icon: match self.icon {
                Some(icon) => Some(icon@),
                None => None,
            },
            cursor_visible: self.cursor_visible,
            cursor_grabbed: self.cursor_grabbed,
        }
    }
}

/// The description that a builder starts from: a transparent, resizable,
/// windowed window without title, icon or fixed size, with a visible and
/// free pointer.
pub open spec fn default_window() -> WindowView {
    WindowView {
        transparent: true,
        fullscreen: false,
        resizable: true,
        size: None,
        title: Seq::empty(),
        icon: None,
        cursor_visible: true,
        cursor_grabbed: false,
    }
}

/// How a window takes over the screen.
#[derive(Clone, Copy, Debug, PartialEq, Eq, Structural)]
pub enum Fullscreen {
    /// A borderless window that covers the monitor it is on.
    Borderless,
}

/// The attributes that a window is created with.
pub struct WindowAttributes<'a> {
    pub fullscreen: Option<Fullscreen>,
    pub resizable: bool,
    pub transparent: bool,
    pub title: &'a str,
    pub window_icon: Option<&'a WindowIcon>,
    /// Size of the drawable area in logical pixels.
    pub inner_size: Option<(u32, u32)>,
}

/// The 32 low bits of `value`.
pub open spec fn low_bits(value: usize) -> u32 {
    ((value as int) % 0x1_0000_0000) as u32
}

/// Narrows a dimension to the 32 bits that the windowing system takes,
/// dropping the bits above them.
pub fn narrow(value: usize) -> (low: u32)
    ensures
        low == low_bits(value),
        value <= u32::MAX ==> low == value,
{
    let wide: u64 = value as u64;
    (wide % 0x1_0000_0000) as u32
}

/// Derives the creation attributes from a description.
///
/// The size is narrowed to 32 bits a side; a fullscreen window is borderless
/// on whichever monitor the platform places it.
pub fn window_attributes(window_info: &WindowInformation) -> (attributes: WindowAttributes<'_>)
    ensures
        attributes.fullscreen == (if window_info.fullscreen {
            Some(Fullscreen::Borderless)
        } else {
            None
        }),
        attributes.resizable == window_info.resizable,
        attributes.transparent == window_info.transparent,
        attributes.title@ == window_info.title@,
        attributes.window_icon == (match window_info.icon {
            Some(icon) => Some(&icon),
            None => None,
        }),
        attributes.inner_size == (match window_info.size {
            Some((width, height)) => Some((low_bits(width), low_bits(height))),
            None => None,
        }),
{
    let fullscreen = if window_info.fullscreen {
        Some(Fullscreen::Borderless)
    } else {
        None
    };
    let inner_size = match window_info.size {
        Some((width, height)) => Some((narrow(width), narrow(height))),
        None => None,
    };
    WindowAttributes {
        fullscreen,
        resizable: window_info.resizable,
        transparent: window_info.transparent,
        title: window_info.title.as_str(),
        window_icon: window_info.icon.as_ref(),
        inner_size,
    }
}

/// A builder for the window that a run opens.
pub struct Window {
    window_info: WindowInformation,
}

impl View for Window {
    type V = WindowView;

    closed spec fn view(&self) -> WindowView {
        self.window_info@
    }
}

impl Window {
    /// Every icon that a builder holds is a well-formed one.
    pub closed spec fn wf(&self) -> bool {
        self.window_info.icon matches Some(icon) ==> icon.wf()
    }

    /// Starts from [`default_window`].
    pub fn new() -> (window: Window)
        ensures
            window@ == default_window(),
            window.wf(),
    {
        proof {
            reveal_strlit("");
            assert(""@ =~= Seq::empty());
        }
        Window {
            window_info: WindowInformation {
                transparent: true,
                fullscreen: false,
                resizable: true,
                size: None,
                title: "".to_owned(),
                icon: None,
                cursor_visible: true,
                cursor_grabbed: false,
            },
        }
    }

    /// Sets whether the window's background can be seen through.
    pub fn set_transparent(self, transparent: bool) -> (window: Window)
        ensures
            window@ == (WindowView { transparent, ..self@ }),
            self.wf() ==> window.wf(),
    {
        let mut window = self;
        window.window_info.transparent = transparent;
        window
    }

    /// Sets whether the window covers the whole screen.
    pub fn set_fullscreen(self, fullscreen: bool) -> (window: Window)
        ensures
            window@ == (WindowView { fullscreen, ..self@ }),
            self.wf() ==> window.wf(),
    {
        let mut window = self;
        window.window_info.fullscreen = fullscreen;
        window
    }

    /// Sets whether the user may resize the window.
    pub fn set_resizable(self, resizable: bool) -> (window: Window)
        ensures
            window@ == (WindowView { resizable, ..self@ }),
            self.wf() ==> window.wf(),
    {
        let mut window = self;
        window.window_info.resizable = resizable;
        window
    }

    /// Asks for a drawable area of `size.0` by `size.1`.
    pub fn set_size(self, size: (usize, usize)) -> (window: Window)
        ensures
            window@ == (WindowView { size: Some(size), ..self@ }),
            self.wf() ==> window.wf(),
    {
        let mut window = self;
        window.window_info.size = Some(size);
        window
    }

    /// Sets the text of the title bar.
    pub fn set_title(self, title: &str) -> (window: Window)
        ensures
            window@ == (WindowView { title: title@, ..self@ }),
            self.wf() ==> window.wf(),
    {
        let mut window = self;
        window.window_info.title = title.to_owned();
        window
    }

    /// Sets the icon to the `width` by `height` RGBA bitmap in `data`.
    ///
    /// The dimensions are narrowed to 32 bits, and `data` must hold exactly
    /// the pixels of a bitmap of the narrowed dimensions. The windowing
    /// library is asked for the icon; where the platform makes none, there is
    /// no builder to go on with.
    pub fn set_icon(self, data: &[u8], width: usize, height: usize) -> (window: Option<Window>)
        requires
            rgba_fits(data@.len(), low_bits(width), low_bits(height)),
        ensures
            window matches Some(window) ==> window@ == (WindowView {
                icon: Some(
                    IconView { rgba: data@, width: low_bits(width), height: low_bits(height) },
                ),
                ..self@
            }) && (self.wf() ==> window.wf()),
    {
        match WindowIcon::from_rgba(data, narrow(width), narrow(height)) {
            Some(icon) => Some(self.set_window_icon(icon)),
            None => None,
        }
    }

    /// Sets the icon to one that the windowing library has made.
    pub fn set_window_icon(self, icon: WindowIcon) -> (window: Window)
        ensures
            window@ == (WindowView { icon: Some(icon@), ..self@ }),
            self.wf() && icon.wf() ==> window.wf(),
    {
        let mut window = self;
        window.window_info.icon = Some(icon);
        window
    }

    /// Sets whether the pointer is drawn while it is over the window.
    pub fn set_cursor_visible(self, visible: bool) -> (window: Window)
        ensures
            window@ == (WindowView { cursor_visible: visible, ..self@ }),
            self.wf() ==> window.wf(),
    {
        let mut window = self;
        window.window_info.cursor_visible = visible;
        window
    }

    /// Sets whether the pointer is kept inside the window.
    pub fn set_cursor_grabbed(self, grabbed: bool) -> (window: Window)
        ensures
            window@ == (WindowView { cursor_grabbed: grabbed, ..self@ }),
            self.wf() ==> window.wf(),
    {
        let mut window = self;
        window.window_info.cursor_grabbed = grabbed;
        window
    }

    /// Starts a run: the description passes to a lifecycle that has not been
    /// activated yet, together with the template by which the first
    /// activation selects a surface configuration. `demands_transparency`
    /// says whether the backend family must be asked for transparency when
    /// the configurations are listed.
    ///
    /// The event loop itself belongs to the shell, which feeds the lifecycle
    /// and, when the loop ends, takes the result of the run from it.
    pub fn run<E>(self, demands_transparency: bool) -> (app: Lifecycle<E>)
        ensures
            app@ == Model::<E>::initial(
                self@,
                crate::config::ConfigTemplate {
                    alpha_size: crate::config::ALPHA_SIZE,
                    transparency: demands_transparency,
                },
            ),
            app@.wf(),
    {
        let template = config_template(demands_transparency);
        Lifecycle::new(template, self.window_info)
    }

    /// The description as it stands.
    pub fn window_info(&self) -> (window_info: &WindowInformation)
        ensures
            window_info@ == self@,
    {
        &self.window_info
    }
}

impl Default for Window {
    fn default() -> (window: Window)
        ensures
            window@ == default_window(),
            window.wf(),
    {
        Window::new()
    }
}

} // verus!
