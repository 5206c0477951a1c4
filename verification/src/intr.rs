//! The external/asynchronous interrupt path: which device a claimed source
//! id belongs to, and what one step of the device-interrupt handler does —
//! including the claim/complete protocol with the external interrupt
//! controller, which must be invoked in that order, exactly once each, per
//! interrupt.

use vstd::prelude::*;

verus! {

/// Interrupt source id of the console device.
pub const UART0_IRQ: u64 = 10;

/// Interrupt source id of the block device.
pub const VIRTIO0_IRQ: u64 = 1;

/// Asynchronous-cause code: supervisor software interrupt, used by the
/// machine-mode timer handler to relay the quantum tick.
pub const SSI_CODE: u64 = 1;

/// Asynchronous-cause code: supervisor external (device) interrupt.
pub const SEI_CODE: u64 = 9;

/// Summary of a handled asynchronous interrupt, as the device-interrupt
/// handler reports it to the trap dispatcher.
#[derive(Clone, Copy, PartialEq, Eq, Structural, Debug)]
pub enum Intr {
    /// The scheduling-quantum tick.
    Timer,
    /// A device interrupt, already routed and acknowledged.
    Device,
}

/// The driver a device-interrupt source id is routed to.
#[derive(Clone, Copy, PartialEq, Eq, Structural, Debug)]
pub enum DeviceRoute {
    /// The console driver's interrupt entry point.
    Uart,
    /// The block-device driver's interrupt entry point.
    Virtio,
    /// No driver owns this source: it is logged and ignored, never fatal.
    Unrecognized(u64),
}

/// Where a claimed source id is routed: a closed match over the known
/// source numbers with an explicit unrecognized case.
pub open spec fn spec_route(id: u64) -> DeviceRoute {
    if id == UART0_IRQ {
        DeviceRoute::Uart
    } else if id == VIRTIO0_IRQ {
        DeviceRoute::Virtio
    } else {
        DeviceRoute::Unrecognized(id)
    }
}

/// Routes a claimed device-interrupt source id to its owning driver.
pub fn route_source(id: u64) -> (r: DeviceRoute)
    ensures
        r == spec_route(id),
{
    if id == UART0_IRQ {
        DeviceRoute::Uart
    } else if id == VIRTIO0_IRQ {
        DeviceRoute::Virtio
    } else {
        DeviceRoute::Unrecognized(id)
    }
}

/// Everything one step of the device-interrupt handler decides, given a
/// decoded asynchronous cause and what the interrupt controller's claim
/// returned.
#[derive(Clone, Copy, PartialEq, Eq, Structural, Debug)]
pub struct IntrStep {
    /// What the interrupt was, or `None` for an unrecognized cause.
    pub summary: Option<Intr>,
    /// The driver to invoke, when a device interrupt was claimed.
    pub route: Option<DeviceRoute>,
    /// The source id to acknowledge to the controller: always exactly the
    /// claimed id, after the driver ran.
    pub complete: Option<u64>,
    /// Whether to clear the pending supervisor-software bit: exactly on the
    /// relayed timer tick.
    pub clear_soft_pending: bool,
}

/// One step of the device-interrupt handler.
pub open spec fn spec_intr_step(is_interrupt: bool, code: u64, claim: Option<u64>) -> IntrStep {
    if is_interrupt && code == SEI_CODE {
        match claim {
            Some(id) => IntrStep {
                summary: Some(Intr::Device),
                route: Some(spec_route(id)),
                complete: Some(id),
                clear_soft_pending: false,
            },
            None => IntrStep {
                summary: Some(Intr::Device),
                route: None,
                complete: None,
                clear_soft_pending: false,
            },
        }
    } else if is_interrupt && code == SSI_CODE {
        IntrStep {
            summary: Some(Intr::Timer),
            route: None,
            complete: None,
            clear_soft_pending: true,
        }
    } else {
        IntrStep { summary: None, route: None, complete: None, clear_soft_pending: false }
    }
}

/// Decides one step of the device-interrupt handler from the decoded cause
/// and the controller's claim.  `claim` is what `claim()` returned for an
/// external interrupt, `None` otherwise or when nothing was pending.
///
/// An external interrupt is acknowledged with exactly the id that was
/// claimed, whether or not a driver owns the source; an unrecognized source
/// is routed to [`DeviceRoute::Unrecognized`] and is never fatal.  A relayed
/// timer tick clears the pending software bit.  Any other cause is reported
/// as unhandled (`summary == None`).
pub fn intr_step(is_interrupt: bool, code: u64, claim: Option<u64>) -> (s: IntrStep)
    ensures
        s == spec_intr_step(is_interrupt, code, claim),
        s.complete == if is_interrupt && code == SEI_CODE { claim } else { None::<u64> },
{
    if is_interrupt && code == SEI_CODE {
        match claim {
            Some(id) => IntrStep {
                summary: Some(Intr::Device),
                route: Some(route_source(id)),
                complete: Some(id),
                clear_soft_pending: false,
            },
            None => IntrStep {
                summary: Some(Intr::Device),
                route: None,
                complete: None,
                clear_soft_pending: false,
            },
        }
    } else if is_interrupt && code == SSI_CODE {
        IntrStep {
            summary: Some(Intr::Timer),
            route: None,
            complete: None,
            clear_soft_pending: true,
        }
    } else {
        IntrStep { summary: None, route: None, complete: None, clear_soft_pending: false }
    }
}

} // verus!
