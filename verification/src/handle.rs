//! Plain-valued model of the window and display handles the windowing
//! collaborator supplies, and the resolver that extracts the platform
//! identifiers a backend needs from them.
//!
//! A raw handle is an opaque, platform-tagged union. This crate consumes it
//! read-only and only ever reads its tag and its plain identifiers, so the
//! handle is modelled here as exactly those values: a window identifier (and
//! the address of the display connection, carried as an integer token) for a
//! desktop surface, an element identifier for a browser canvas. The unverified
//! shell converts the windowing library's handle into these values and back.

use vstd::prelude::*;

use crate::format::Platform;

verus! {

/// The tag and payload of a raw window handle, as far as this crate reads it.
#[derive(Clone, Copy, Debug, PartialEq, Eq, Structural)]
pub enum WindowHandleKind {
    /// A desktop window on a display-connection platform: the window
    /// identifier.
    Xlib { window: u64 },
    /// A browser canvas: the identifier the windowing collaborator stamped
    /// onto the canvas element.
    Web { id: u32 },
    /// Any other platform's window handle.
    Other,
}

/// The tag and payload of a raw display handle, as far as this crate reads it.
#[derive(Clone, Copy, Debug, PartialEq, Eq, Structural)]
pub enum DisplayHandleKind {
    /// A desktop display connection; `display` carries the address of the
    /// connection object as an opaque token, or nothing when the handle
    /// holds no connection.
    Xlib { display: Option<u64> },
    /// The browser, which has no separate display concept.
    Web,
    /// Any other platform's display handle.
    Other,
}

/// The platform identifiers a backend blits through, resolved once at
/// construction and kept for every later transfer.
#[derive(Clone, Copy, Debug, PartialEq, Eq, Structural)]
pub enum SurfaceTarget {
    /// A desktop window: its identifier and the display-connection token.
    X11 { window: u64, display: u64 },
    /// A browser canvas: its element identifier.
    Web { canvas_id: u32 },
}

impl SurfaceTarget {
    /// The platform this target belongs to.
    pub open spec fn spec_platform(self) -> Platform {
        match self {
            SurfaceTarget::X11 { .. } => Platform::X11,
            SurfaceTarget::Web { .. } => Platform::Web,
        }
    }

    /// The platform this target belongs to.
    pub fn platform(self) -> (p: Platform)
        ensures
            p == self.spec_platform(),
    {
        match self {
            SurfaceTarget::X11 { .. } => Platform::X11,
            SurfaceTarget::Web { .. } => Platform::Web,
        }
    }
}

/// What resolving a pair of raw handles yields, if anything: the desktop
/// window and display identifiers when both handles carry the desktop tag
/// and the display connection is present.
pub open spec fn spec_window_and_display(
    window_handle: WindowHandleKind,
    display_handle: DisplayHandleKind,
) -> Option<(u64, u64)> {
    match (window_handle, display_handle) {
        (WindowHandleKind::Xlib { window }, DisplayHandleKind::Xlib { display }) => match display {
            Some(d) => Some((window, d)),
            None => None,
        },
        _ => None,
    }
}

/// Extracts the desktop window identifier and display-connection token from
/// a pair of raw handles. Returns nothing when either handle carries a
/// different platform's tag, or when the display handle holds no connection.
/// No side effects.
pub fn get_window_and_display(
    window_handle: WindowHandleKind,
    display_handle: DisplayHandleKind,
) -> (r: Option<(u64, u64)>)
    ensures
        r == spec_window_and_display(window_handle, display_handle),
{
    if let WindowHandleKind::Xlib { window } = window_handle {
        if let DisplayHandleKind::Xlib { display } = display_handle {
            if let Some(d) = display {
                return Some((window, d));
            }
        }
    }
    None
}

/// What resolving a pair of raw handles to a surface target yields: a
/// desktop target when both handles are desktop handles with a present
/// display, a canvas target when the window handle is a browser handle.
pub open spec fn spec_resolve_target(
    window_handle: WindowHandleKind,
    display_handle: DisplayHandleKind,
) -> Option<SurfaceTarget> {
    match window_handle {
        WindowHandleKind::Xlib { .. } => match spec_window_and_display(
            window_handle,
            display_handle,
        ) {
            Some((window, display)) => Some(SurfaceTarget::X11 { window, display }),
            None => None,
        },
        WindowHandleKind::Web { id } => Some(SurfaceTarget::Web { canvas_id: id }),
        WindowHandleKind::Other => None,
    }
}

/// Resolves a pair of raw handles to the surface target a backend can blit
/// through. Fails exactly when the handles match no compiled backend: a
/// desktop handle without its display connection, mismatched tags, or a
/// platform no backend exists for.
pub fn resolve_target(
    window_handle: WindowHandleKind,
    display_handle: DisplayHandleKind,
) -> (r: Option<SurfaceTarget>)
    ensures
        r == spec_resolve_target(window_handle, display_handle),
{
    match window_handle {
        WindowHandleKind::Xlib { .. } => match get_window_and_display(
            window_handle,
            display_handle,
        ) {
            Some((window, display)) => Some(SurfaceTarget::X11 { window, display }),
            None => None,
        },
        WindowHandleKind::Web { id } => Some(SurfaceTarget::Web { canvas_id: id }),
        WindowHandleKind::Other => None,
    }
}

} // verus!
