//! The order of start-up: what to do next, and what follows from each answer.
//!
//! [`Engine`] takes no step by itself. It names the step that is due
//! ([`Engine::pending`]), the caller performs it against the driver or the
//! window system and reports how it went ([`Engine::handle`]).

use vstd::prelude::*;
use crate::device::logical_device_request;
use crate::device::select_device;
use crate::device::selection;
use crate::device::selection_fails_without_support;
use crate::device::LogicalDeviceContext;
use crate::device::LogicalDeviceRequest;
use crate::device::PhysicalDeviceCandidate;
use crate::device::SelectedDevice;
use crate::error::Error;
use crate::extensions::required_device_extensions;
use crate::extensions::ExtensionSet;
use crate::extensions::KHR_SWAPCHAIN;
use crate::swapchain::negotiate_swapchain;
use crate::swapchain::negotiated;
use crate::swapchain::SurfaceConstraints;
use crate::swapchain::SwapchainConfig;

verus! {

/// How far start-up has come.
#[derive(Clone, Copy, Debug, PartialEq)]
pub enum Stage {
    /// Nothing exists yet.
    Start,
    /// The surface exists.
    SurfaceReady,
    /// A device and its queue family are chosen.
    DeviceSelected { selected: SelectedDevice },
    /// The logical device exists.
    DeviceReady { device: LogicalDeviceContext },
    /// The parameters of the swapchain are derived.
    Configured { device: LogicalDeviceContext, config: SwapchainConfig },
    /// The swapchain exists: start-up is complete.
    Ready { device: LogicalDeviceContext, config: SwapchainConfig },
    /// Start-up has failed, for good.
    Failed { error: Error },
}

impl Stage {
    /// Whether the logical device, where the stage has one, has a queue.
    pub open spec fn has_queue(self) -> bool {
        match self {
            Stage::DeviceReady { device } => device.has_queue(),
            Stage::Configured { device, .. } => device.has_queue(),
            Stage::Ready { device, .. } => device.has_queue(),
            _ => true,
        }
    }
}

/// How a step went that the caller performed.
#[derive(Debug)]
pub enum Event {
    /// The Vulkan runtime could not be loaded.
    RuntimeMissing,
    /// The window and its surface were created.
    SurfaceCreated,
    /// The physical devices were enumerated; these are they, in order.
    DevicesEnumerated(Vec<PhysicalDeviceCandidate>),
    /// The logical device was created, and with it this many queues.
    DeviceCreated { queue_count: usize },
    /// The driver refused to create the logical device.
    DeviceRejected,
    /// The surface reported its capabilities and formats.
    SurfaceQueried(SurfaceConstraints),
    /// The surface could not report its capabilities or formats.
    SurfaceQueryFailed,
    /// The swapchain was created.
    SwapchainCreated,
    /// The driver refused to create the swapchain.
    SwapchainRejected,
}

impl Event {
    /// Whether the event is one that can occur. A logical device is created
    /// with at least one queue: the engine asks for one, and a device that
    /// came without any would be of no use to it.
    pub open spec fn can_occur(&self) -> bool {
        self matches Event::DeviceCreated { queue_count } ==> queue_count >= 1
    }
}

/// The step that is due.
#[derive(Debug)]
pub enum Action {
    /// Load the runtime, and create the window and its surface.
    CreateSurface,
    /// Enumerate the physical devices, with what each reports.
    EnumerateDevices,
    /// Create the logical device as requested.
    CreateDevice(LogicalDeviceRequest),
    /// Ask the surface for its capabilities and formats on this device.
    QuerySurface { device_index: usize },
    /// Create the swapchain with these parameters.
    CreateSwapchain(SwapchainConfig),
    /// Nothing: start-up is complete.
    Finish,
    /// Nothing: start-up has failed with this error.
    Abort(Error),
}

impl Action {
    /// Whether this is the step that is due at `stage`, for an engine that
    /// requires the extensions in `required`.
    pub open spec fn is_due_at(self, stage: Stage, required: Set<Seq<char>>) -> bool {
        match stage {
            Stage::Start => self == Action::CreateSurface,
            Stage::SurfaceReady => self == Action::EnumerateDevices,
            Stage::DeviceSelected { selected } => {
                &&& self matches Action::CreateDevice(request)
                &&& request.serves(selected, required)
            },
            Stage::DeviceReady { device } => self == (Action::QuerySurface {
                device_index: device.selected.device_index,
            }),
            Stage::Configured { config, .. } => self == Action::CreateSwapchain(config),
            Stage::Ready { .. } => self == Action::Finish,
            Stage::Failed { error } => self == Action::Abort(error),
        }
    }
}

/// The stage that follows `stage` once `event` is reported, for an engine
/// that requires the extensions in `required`.
///
/// An event moves the engine on only where it reports on the step that was
/// due. Any other event leaves the stage as it is.
pub open spec fn next_stage(stage: Stage, event: Event, required: Set<Seq<char>>) -> Stage {
    match stage {
        Stage::Start => match event {
            Event::SurfaceCreated => Stage::SurfaceReady,
            Event::RuntimeMissing => Stage::Failed { error: Error::MissingRuntime },
            _ => stage,
        },
        Stage::SurfaceReady => match event {
            Event::DevicesEnumerated(candidates) => match selection(candidates@, required) {
                Ok(selected) => Stage::DeviceSelected { selected },
                Err(error) => Stage::Failed { error },
            },
            _ => stage,
        },
        Stage::DeviceSelected { selected } => match event {
            Event::DeviceCreated { queue_count } => Stage::DeviceReady {
                device: LogicalDeviceContext { selected, queue_count },
            },
            Event::DeviceRejected => Stage::Failed { error: Error::DeviceCreationRejected },
            _ => stage,
        },
        Stage::DeviceReady { device } => match event {
            Event::SurfaceQueried(constraints) => match negotiated(constraints) {
                Ok(config) => Stage::Configured { device, config },
                Err(error) => Stage::Failed { error },
            },
            Event::SurfaceQueryFailed => Stage::Failed {
                error: Error::SurfaceCapabilityQueryFailure,
            },
            _ => stage,
        },
        Stage::Configured { device, config } => match event {
            Event::SwapchainCreated => Stage::Ready { device, config },
            Event::SwapchainRejected => Stage::Failed {
                error: Error::SwapchainConstructionRejected,
            },
            _ => stage,
        },
        Stage::Ready { .. } => stage,
        Stage::Failed { .. } => stage,
    }
}

/// The decisions of an engine that is starting up.
#[derive(Debug)]
pub struct Engine {
    required_extensions: ExtensionSet,
    stage: Stage,
}

impl Engine {
    /// A logical device that the engine has got has a queue.
    #[verifier::type_invariant]
    spec fn queue_is_there(self) -> bool {
        self.stage.has_queue()
    }

    /// How far start-up has come.
    pub closed spec fn spec_stage(&self) -> Stage {
        self.stage
    }

    /// The names of the device extensions that the engine requires.
    pub closed spec fn required(&self) -> Set<Seq<char>> {
        self.required_extensions@
    }

    /// An engine at the start, which requires the swapchain extension of its
    /// device and no other.
    pub fn new() -> (engine: Engine)
        ensures
            engine.stage() == Stage::Start,
            engine.required() == set![KHR_SWAPCHAIN@],
    {
        Engine { required_extensions: required_device_extensions(), stage: Stage::Start }
    }

    /// How far start-up has come.
    #[verifier::when_used_as_spec(spec_stage)]
    pub fn stage(&self) -> (stage: Stage)
        ensures
            stage == self.spec_stage(),
            stage.has_queue(),
    {
        proof {
            use_type_invariant(self);
        }
        self.stage
    }

    /// The device extensions that the engine requires.
    pub fn required_extensions(&self) -> (required: &ExtensionSet)
        ensures
            required@ == self.required(),
    {
        &self.required_extensions
    }

    /// The step that is due now.
    pub fn pending(&self) -> (action: Action)
        ensures
            action.is_due_at(self.stage(), self.required()),
    {
        match self.stage {
            Stage::Start => Action::CreateSurface,
            Stage::SurfaceReady => Action::EnumerateDevices,
            Stage::DeviceSelected { selected } => Action::CreateDevice(
                logical_device_request(selected, &self.required_extensions),
            ),
            Stage::DeviceReady { device } => Action::QuerySurface {
                device_index: device.selected.device_index,
            },
            Stage::Configured { config, .. } => Action::CreateSwapchain(config),
            Stage::Ready { .. } => Action::Finish,
            Stage::Failed { error } => Action::Abort(error),
        }
    }

    /// Takes note of how the pending step went, and moves on accordingly.
    pub fn handle(&mut self, event: Event)
        requires
            event.can_occur(),
        ensures
            final(self).stage() == next_stage(old(self).stage(), event, old(self).required()),
            final(self).required() == old(self).required(),
    {
        proof {
            use_type_invariant(&*self);
        }
        let stage = self.stage;
        let next = match stage {
            Stage::Start => match event {
                Event::SurfaceCreated => Stage::SurfaceReady,
                Event::RuntimeMissing => Stage::Failed { error: Error::MissingRuntime },
                _ => stage,
            },
            Stage::SurfaceReady => match event {
                Event::DevicesEnumerated(candidates) => match select_device(
                    &candidates,
                    &self.required_extensions,
                ) {
                    Ok(selected) => Stage::DeviceSelected { selected },
                    Err(error) => Stage::Failed { error },
                },
                _ => stage,
            },
            Stage::DeviceSelected { selected } => match event {
                Event::DeviceCreated { queue_count } => Stage::DeviceReady {
                    device: LogicalDeviceContext { selected, queue_count },
                },
                Event::DeviceRejected => Stage::Failed { error: Error::DeviceCreationRejected },
                _ => stage,
            },
            Stage::DeviceReady { device } => match event {
                Event::SurfaceQueried(constraints) => match negotiate_swapchain(&constraints) {
                    Ok(config) => Stage::Configured { device, config },
                    Err(error) => Stage::Failed { error },
                },
                Event::SurfaceQueryFailed => Stage::Failed {
                    error: Error::SurfaceCapabilityQueryFailure,
                },
                _ => stage,
            },
            Stage::Configured { device, config } => match event {
                Event::SwapchainCreated => Stage::Ready { device, config },
                Event::SwapchainRejected => Stage::Failed {
                    error: Error::SwapchainConstructionRejected,
                },
                _ => stage,
            },
            Stage::Ready { .. } => stage,
            Stage::Failed { .. } => stage,
        };
        self.stage = next;
    }
}

/// Once start-up has failed it stays failed, whatever is reported, and the
/// only step that is ever due is to abort with the error: nothing is created
/// after a failure.
pub proof fn failure_is_final(error: Error, event: Event, required: Set<Seq<char>>, action: Action)
    ensures
        next_stage(Stage::Failed { error }, event, required) == (Stage::Failed { error }),
        action.is_due_at(Stage::Failed { error }, required) ==> action == Action::Abort(error),
{
}

/// Where no enumerated device supports every required extension, start-up
/// fails for want of a capable device as soon as the devices are reported.
pub proof fn unsupported_devices_fail_startup(
    candidates: Vec<PhysicalDeviceCandidate>,
    required: Set<Seq<char>>,
)
    requires
        forall|j: int|
            0 <= j < candidates@.len() ==> !(#[trigger] candidates@[j]).supports(required),
    ensures
        next_stage(Stage::SurfaceReady, Event::DevicesEnumerated(candidates), required) == (
        Stage::Failed { error: Error::NoCapableDevice }),
{
    selection_fails_without_support(candidates@, required);
}

} // verus!
