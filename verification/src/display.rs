//! The display backend preference on Linux.

use vstd::prelude::*;

verus! {

/// Which display backend the application is to use on Linux.
#[derive(Clone, Copy, Debug, PartialEq, Eq, Structural)]
pub enum LinuxDisplayBackend {
    /// Prefer Wayland.
    Wayland,
    /// Let the toolkit choose.
    Auto,
}

/// The backend that the stored preference stands for.  `stored` is the
/// stored answer to "prefer Wayland?", if there is one; without one the
/// toolkit chooses.
pub open spec fn backend_of(stored: Option<bool>) -> LinuxDisplayBackend {
    if stored == Some(true) {
        LinuxDisplayBackend::Wayland
    } else {
        LinuxDisplayBackend::Auto
    }
}

impl LinuxDisplayBackend {
    /// Whether this backend is stored as "prefer Wayland".
    pub fn prefers_wayland(&self) -> (prefer: bool)
        ensures
            prefer == (*self == LinuxDisplayBackend::Wayland),
            backend_of(Some(prefer)) == *self,
    {
        match self {
            LinuxDisplayBackend::Wayland => true,
            LinuxDisplayBackend::Auto => false,
        }
    }
}

/// The display backend in force: on Linux the one that the stored
/// preference stands for, elsewhere none.
pub fn get_display_backend(on_linux: bool, stored: Option<bool>) -> (backend: Option<
    LinuxDisplayBackend,
>)
    ensures
        backend == if on_linux {
            Some(backend_of(stored))
        } else {
            None
        },
{
    if on_linux {
        match stored {
            Some(true) => Some(LinuxDisplayBackend::Wayland),
            _ => Some(LinuxDisplayBackend::Auto),
        }
    } else {
        None
    }
}

/// The preference to store when `backend` is chosen: on Linux whether
/// Wayland is preferred, elsewhere nothing.
pub fn set_display_backend(on_linux: bool, backend: LinuxDisplayBackend) -> (store: Option<bool>)
    ensures
        store == if on_linux {
            Some(backend == LinuxDisplayBackend::Wayland)
        } else {
            None
        },
        on_linux ==> backend_of(store) == backend,
{
    if on_linux {
        Some(backend.prefers_wayland())
    } else {
        None
    }
}

} // verus!
