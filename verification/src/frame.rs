//! The frame renderer's vocabulary: the phases of one frame cycle, what the
//! surface and the device report back, and the single render pass of a frame.

use vstd::prelude::*;

verus! {

/// Where the frame renderer stands in its cycle. Each phase other than `Idle`
/// waits for one report from the caller.
#[derive(Clone, Copy, Debug, PartialEq, Eq, Structural)]
pub enum Phase {
    /// No frame is in flight and no drawable image is held.
    Idle,
    /// The next drawable image has been requested from the surface.
    Acquiring,
    /// An image is held and the render pass is being recorded against it.
    Recording,
    /// The recorded commands go to the queue and the image to the display.
    Submitted,
}

impl Phase {
    /// A drawable image is held from its acquisition until it is presented.
    pub open spec fn holds_image(self) -> bool {
        self == Phase::Recording || self == Phase::Submitted
    }
}

/// Why the surface could not hand out its next image.
#[derive(Clone, Copy, Debug, PartialEq, Eq, Structural)]
pub enum SurfaceError {
    /// The image did not become available in time.
    Timeout,
    /// The surface changed underneath its configuration.
    Outdated,
    /// The surface was lost and has to be configured again.
    Lost,
    /// No memory is left for another image.
    OutOfMemory,
}

/// What the caller reports after it has carried out an action of the frame
/// cycle.
#[derive(Clone, Copy, Debug, PartialEq, Eq, Structural)]
pub enum Report {
    /// The surface handed out its next image.
    Acquired,
    /// The surface refused to hand out an image.
    AcquireFailed(SurfaceError),
    /// The render pass has been recorded.
    Recorded,
    /// The commands were submitted and the image was presented.
    Presented,
}

/// A colour with each channel in tenths of full intensity, from 0 to 10.
#[derive(Clone, Copy, Debug, PartialEq, Eq, Structural)]
pub struct ClearColor {
    pub red: u8,
    pub green: u8,
    pub blue: u8,
    pub alpha: u8,
}

/// The one render pass of a frame.
#[derive(Clone, Copy, Debug, PartialEq, Eq, Structural)]
pub struct PassPlan {
    /// The colour the target is cleared to when the pass begins.
    pub clear: ClearColor,
    /// Whether the target keeps what the pass wrote.
    pub store: bool,
    /// Number of vertices of the single draw call.
    pub vertices: u32,
    /// Number of instances of the single draw call.
    pub instances: u32,
}

/// Every frame clears to the same opaque colour, red 0.5, green 0.4 and blue
/// 0.9, and draws one instance of three vertices with the pipeline bound.
pub open spec fn fixed_pass() -> PassPlan {
    PassPlan {
        clear: ClearColor { red: 5, green: 4, blue: 9, alpha: 10 },
        store: true,
        vertices: 3,
        instances: 1,
    }
}

/// Describes the render pass of a frame.
pub fn pass_plan() -> (plan: PassPlan)
    ensures
        plan == fixed_pass(),
{
    PassPlan {
        clear: ClearColor { red: 5, green: 4, blue: 9, alpha: 10 },
        store: true,
        vertices: 3,
        instances: 1,
    }
}

} // verus!
