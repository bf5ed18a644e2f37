//! The ways in which start-up can fail.

use vstd::prelude::*;

verus! {

/// Why the engine could not be brought up. Every one of these ends start-up.
#[derive(Clone, Copy, Debug, PartialEq, Eq, Structural)]
pub enum Error {
    /// The Vulkan runtime library could not be found or loaded.
    MissingRuntime,
    /// No enumerated device supports the required extensions together with a
    /// queue family that can both render and present.
    NoCapableDevice,
    /// The driver refused to create the logical device.
    DeviceCreationRejected,
    /// The surface could not report its capabilities for the selected device,
    /// or reported nothing to choose from.
    SurfaceCapabilityQueryFailure,
    /// The driver refused the swapchain that was derived.
    SwapchainConstructionRejected,
}

impl Error {
    /// The text of [`Error::message`].
    pub open spec fn message_text(self) -> Seq<char> {
        match self {
            Error::MissingRuntime => "no local Vulkan lib/DLL found"@,
            Error::NoCapableDevice => "no matching device found"@,
            Error::DeviceCreationRejected => "couldn't build device"@,
            Error::SurfaceCapabilityQueryFailure => "could not retrieve surface capabilities"@,
            Error::SwapchainConstructionRejected => "could not construct swapchain"@,
        }
    }

    /// A short description of the failure, fit for a panic message or a log line.
    pub fn message(self) -> (text: &'static str)
        ensures
            text@ == self.message_text(),
    {
        match self {
            Error::MissingRuntime => "no local Vulkan lib/DLL found",
            Error::NoCapableDevice => "no matching device found",
            Error::DeviceCreationRejected => "couldn't build device",
            Error::SurfaceCapabilityQueryFailure => "could not retrieve surface capabilities",
            Error::SwapchainConstructionRejected => "could not construct swapchain",
        }
    }
}

} // verus!
