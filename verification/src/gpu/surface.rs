//! Which surface a pair of native handles gives.

use crate::gpu::context::WindowSystem;
use vstd::prelude::*;

verus! {

/// The kind of surface to create.
#[derive(Clone, Copy, Debug, PartialEq, Eq, Structural)]
pub enum SurfaceKind {
    Win32,
    Wayland,
}

/// The surface for a display handle and a window handle, told by the
/// window systems that they belong to: a surface of the window system
/// where both belong to the same one and it has surfaces, and none for
/// any other pair.
pub fn create_surface(display: WindowSystem, window: WindowSystem) -> (r: Option<SurfaceKind>)
    ensures
        r == (match (display, window) {
            (WindowSystem::Win32, WindowSystem::Win32) => Some(SurfaceKind::Win32),
            (WindowSystem::Wayland, WindowSystem::Wayland) => Some(SurfaceKind::Wayland),
            _ => None,
        }),
{
    match (display, window) {
        (WindowSystem::Win32, WindowSystem::Win32) => Some(SurfaceKind::Win32),
        (WindowSystem::Wayland, WindowSystem::Wayland) => Some(SurfaceKind::Wayland),
        _ => None,
    }
}

} // verus!
