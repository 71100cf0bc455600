//! The CPU component.

use crate::component::fan_requests::{fan_request_outcome, handle_fan_request, is_fan_command};
use crate::component::{Component, Msg, MsgError};
use crate::lowlevel::middleware::fan::{Fan, FanIndex};
use vstd::prelude::*;
use vstd::string::*;

verus! {

/// A fault of the CPU layer, with its own message.
#[derive(Debug)]
pub struct CpuError {
    pub detail: String,
}

/// The component that answers for the CPU and its fan.
pub struct Cpu {}

impl Cpu {
    pub fn new() -> Cpu {
        Cpu {}
    }
}

impl Component for Cpu {
    open spec fn recognizes(&self, command: u8) -> bool {
        is_fan_command(command)
    }

    open spec fn has_name(&self) -> bool {
        true
    }

    fn get_desc(&self) -> (desc: String)
        ensures
            desc@ == "CPU"@,
    {
        String::from_str("CPU")
    }

    fn handle_request(&mut self, msg: &Msg, fan: &mut Fan) -> (reply: Result<
        Option<Vec<u8>>,
        MsgError,
    >)
        ensures
            fan_request_outcome(
                FanIndex::CPU,
                msg.packet.command,
                msg.packet.payload@,
                old(fan)@,
                final(fan)@,
                reply,
            ),
    {
        handle_fan_request(FanIndex::CPU, msg, fan)
    }
}

} // verus!
