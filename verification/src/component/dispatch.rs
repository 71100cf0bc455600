//! Routing of messages to the components of the machine.

use crate::component::cpu::Cpu;
use crate::component::fan_requests::fan_request_outcome;
use crate::component::gpu::Gpu;
use crate::component::{Component, Msg, MsgError};
use crate::lowlevel::middleware::fan::{Fan, FanIndex};
use vstd::prelude::*;

verus! {

/// Identifier of the CPU component.
pub const TARGET_CPU: u8 = 1;

/// Identifier of the GPU component.
pub const TARGET_GPU: u8 = 2;

/// The fan of the component that `target` identifies, or `None` where no
/// component has that identifier.
pub open spec fn fan_of_target(target: u8) -> Option<FanIndex> {
    if target == TARGET_CPU {
        Some(FanIndex::CPU)
    } else if target == TARGET_GPU {
        Some(FanIndex::GPU)
    } else {
        None
    }
}

/// The components of the machine: one for the CPU, one for the GPU.
pub struct Dispatcher {
    cpu: Cpu,
    gpu: Gpu,
}

impl Dispatcher {
    pub fn new() -> Dispatcher {
        Dispatcher { cpu: Cpu::new(), gpu: Gpu::new() }
    }

    /// Lets the component that `msg` is meant for refresh itself and answer
    /// the message. A message for no component is left unanswered, and the
    /// fan middleware is left as it was.
    pub fn dispatch(&mut self, msg: &Msg, fan: &mut Fan) -> (reply: Option<
        Result<Option<Vec<u8>>, MsgError>,
    >)
        ensures
            match fan_of_target(msg.packet.target) {
                Some(index) => reply matches Some(answer) && fan_request_outcome(
                    index,
                    msg.packet.command,
                    msg.packet.payload@,
                    old(fan)@,
                    final(fan)@,
                    answer,
                ),
                None => reply is None && final(fan)@ == old(fan)@,
            },
    {
        if msg.packet.target == TARGET_CPU {
            match self.cpu.refresh_status() {
                Ok(()) => Some(self.cpu.handle_request(msg, fan)),
                Err(err) => Some(Err(MsgError::Component(err))),
            }
        } else if msg.packet.target == TARGET_GPU {
            match self.gpu.refresh_status() {
                Ok(()) => Some(self.gpu.handle_request(msg, fan)),
                Err(err) => Some(Err(MsgError::Component(err))),
            }
        } else {
            None
        }
    }
}

} // verus!
