//! The device context: what is asked of the graphics backend when the
//! logical device is negotiated at startup.

use vstd::prelude::*;

verus! {

/// Which kind of physical adapter is preferred.
#[derive(Clone, Copy, Debug, PartialEq, Eq, Structural)]
pub enum PowerPreference {
    LowPower,
    HighPerformance,
}

/// The request for a physical adapter.
#[derive(Clone, Copy, Debug, PartialEq, Eq, Structural)]
pub struct AdapterRequest {
    pub power: PowerPreference,
    /// Whether a software adapter is acceptable.
    pub allow_fallback: bool,
    /// Whether the adapter has to be able to present to the host's surface.
    pub surface_compatible: bool,
}

/// The resource limits asked of a logical device.
#[derive(Clone, Copy, Debug, PartialEq, Eq, Structural)]
pub enum Limits {
    /// The limits every backend guarantees.
    Default,
    /// The reduced limits of a browser's WebGL2 backend.
    DownlevelWebGl2,
}

/// The request for a logical device and its queue.
#[derive(Clone, Copy, Debug, PartialEq, Eq, Structural)]
pub struct DeviceRequest {
    /// The optional features asked for, one bit each; zero asks for none.
    pub features: u64,
    pub limits: Limits,
}

/// The adapter the host wants: a high-performance one that can present to
/// its surface, never a software fallback.
pub open spec fn fixed_adapter_request() -> AdapterRequest {
    AdapterRequest {
        power: PowerPreference::HighPerformance,
        allow_fallback: false,
        surface_compatible: true,
    }
}

/// Describes the adapter to ask for.
pub fn adapter_request() -> (request: AdapterRequest)
    ensures
        request == fixed_adapter_request(),
{
    AdapterRequest {
        power: PowerPreference::HighPerformance,
        allow_fallback: false,
        surface_compatible: true,
    }
}

/// Describes the device to ask for: no optional feature, with the reduced
/// limits in a browser and the default limits everywhere else.
pub fn device_request(in_browser: bool) -> (request: DeviceRequest)
    ensures
        request.features == 0,
        request.limits == if in_browser {
            Limits::DownlevelWebGl2
        } else {
            Limits::Default
        },
{
    DeviceRequest {
        features: 0,
        limits: if in_browser {
            Limits::DownlevelWebGl2
        } else {
            Limits::Default
        },
    }
}

} // verus!
