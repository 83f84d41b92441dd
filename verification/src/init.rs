//! Initialization decisions: which setup failure aborts the process, which
//! surface format is selected, and the device limits the client requests.
//!
//! Initialization is a one-shot sequence — create the window, bind a surface
//! to it, request a compatible adapter, request a device and queue, configure
//! the surface — and every fallible step is fatal: there is no retry and no
//! fallback. The surrounding application performs the steps; this module
//! states which outcome aborts and with which diagnostic.

use vstd::prelude::*;

verus! {

/// Required size limit, in bytes, of a single storage buffer binding.
pub const MAX_STORAGE_BUFFER_BINDING_SIZE: u32 = 1500000000;

/// Required size limit, in bytes, of a single buffer.
pub const MAX_BUFFER_SIZE: u64 = 1500000000;

/// Required size, in bytes, of the push-constant block.
pub const MAX_PUSH_CONSTANT_SIZE: u32 = 4;

/// Maximum number of frames the presentation engine may queue ahead.
pub const DESIRED_MAXIMUM_FRAME_LATENCY: u32 = 2;

/// A fatal initialization failure. Every variant aborts the process; none is
/// recoverable.
#[derive(Clone, Copy, Debug, PartialEq, Eq, Structural)]
pub enum InitError {
    /// The window system could not create the window.
    WindowCreation,
    /// No surface could be bound to the window.
    SurfaceCreation,
    /// No compatible GPU adapter is available.
    AdapterRequest,
    /// The adapter could not provide a device with the required
    /// features and limits.
    DeviceRequest,
}

impl InitError {
    /// The diagnostic printed when the process aborts on this failure.
    pub open spec fn spec_message(self) -> Seq<char> {
        match self {
            InitError::WindowCreation => "Failed to create window"@,
            InitError::SurfaceCreation => "Could not create window surface!"@,
            InitError::AdapterRequest => "Could not get adapter!"@,
            InitError::DeviceRequest => "Could not get device!"@,
        }
    }

    /// Returns the diagnostic printed when the process aborts on this
    /// failure.
    pub fn message(self) -> (m: &'static str)
        ensures
            m@ == self.spec_message(),
    {
        match self {
            InitError::WindowCreation => "Failed to create window",
            InitError::SurfaceCreation => "Could not create window surface!",
            InitError::AdapterRequest => "Could not get adapter!",
            InitError::DeviceRequest => "Could not get device!",
        }
    }
}

/// Decides the outcome of the initialization sequence from the outcome of
/// each fallible step, in the order the steps run. Initialization succeeds
/// exactly when every step succeeded; otherwise it fails with the first
/// failing step, and the process must abort rather than proceed — in
/// particular, a missing compatible adapter aborts, it never yields a null
/// device.
pub fn init_outcome(window_ok: bool, surface_ok: bool, adapter_ok: bool, device_ok: bool) -> (r:
    Result<(), InitError>)
    ensures
        r is Ok <==> window_ok && surface_ok && adapter_ok && device_ok,
        !window_ok ==> r == Result::<(), InitError>::Err(InitError::WindowCreation),
        window_ok && !surface_ok ==> r == Result::<(), InitError>::Err(InitError::SurfaceCreation),
        window_ok && surface_ok && !adapter_ok ==> r == Result::<(), InitError>::Err(
            InitError::AdapterRequest,
        ),
        window_ok && surface_ok && adapter_ok && !device_ok ==> r == Result::<(), InitError>::Err(
            InitError::DeviceRequest,
        ),
{
    if !window_ok {
        Err(InitError::WindowCreation)
    } else if !surface_ok {
        Err(InitError::SurfaceCreation)
    } else if !adapter_ok {
        Err(InitError::AdapterRequest)
    } else if !device_ok {
        Err(InitError::DeviceRequest)
    } else {
        Ok(())
    }
}

/// Whether some format in the list is gamma-corrected (sRGB).
pub open spec fn has_srgb(srgb: Seq<bool>) -> bool {
    exists|i: int| 0 <= i < srgb.len() && srgb[i]
}

/// Selects the output pixel format from the surface's supported formats,
/// given for each whether it is gamma-corrected (sRGB), in the surface's
/// preference order. Returns the position of the first sRGB format, or the
/// first format of the list when none is sRGB.
pub fn select_surface_format(srgb: &Vec<bool>) -> (idx: usize)
    requires
        srgb.len() > 0,
    ensures
        idx < srgb.len(),
        has_srgb(srgb@) ==> srgb@[idx as int] && forall|j: int| 0 <= j < idx ==> !srgb@[j],
        !has_srgb(srgb@) ==> idx == 0,
{
    let mut i: usize = 0;
    while i < srgb.len()
        invariant
            i <= srgb.len(),
            forall|j: int| 0 <= j < i ==> !srgb@[j],
        decreases srgb.len() - i,
    {
        if srgb[i] {
            return i;
        }
        i += 1;
    }
    0
}

} // verus!
