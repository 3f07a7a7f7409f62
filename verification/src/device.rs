//! What is asked of the graphics API when the device is acquired.

use vstd::prelude::*;

verus! {

/// The graphics APIs an instance can be created on.
#[derive(Clone, Copy, Debug, PartialEq, Eq, Structural)]
pub enum Backend {
    Vulkan,
    Gl,
    Metal,
    Dx12,
    Dx11,
    BrowserWebGpu,
}

/// Which adapter is preferred where several are available.
#[derive(Clone, Copy, Debug, PartialEq, Eq, Structural)]
pub enum PowerPreference {
    Default,
    LowPower,
    HighPerformance,
}

/// The plain values of the instance, adapter and device requests.
#[derive(Clone, Copy, Debug, PartialEq, Eq, Structural)]
pub struct DeviceRequest {
    pub backend: Backend,
    pub power_preference: PowerPreference,
    /// Whether the adapter must be able to present to the window's surface.
    pub compatible_surface: bool,
    /// Whether shader modules are validated when they are created.
    pub shader_validation: bool,
    /// Whether the device's calls are traced to a directory.
    pub trace: bool,
}

impl DeviceRequest {
    /// The request of the triangle window: a Vulkan adapter of default power
    /// preference that can present to the window, with shader validation and
    /// without a trace.
    pub open spec fn standard() -> DeviceRequest {
        DeviceRequest {
            backend: Backend::Vulkan,
            power_preference: PowerPreference::Default,
            compatible_surface: true,
            shader_validation: true,
            trace: false,
        }
    }

    /// Builds the request of the triangle window.
    pub fn new() -> (request: DeviceRequest)
        ensures
            request == DeviceRequest::standard(),
    {
        DeviceRequest {
            backend: Backend::Vulkan,
            power_preference: PowerPreference::Default,
            compatible_surface: true,
            shader_validation: true,
            trace: false,
        }
    }
}

} // verus!
