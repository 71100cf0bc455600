//! The GPU component.

use crate::component::fan_requests::{fan_request_outcome, handle_fan_request, is_fan_command};
use crate::component::{Component, Msg, MsgError};
use crate::lowlevel::middleware::fan::{Fan, FanIndex};
use vstd::prelude::*;
use vstd::string::*;

verus! {

/// The component that answers for the GPU and its fan.
pub struct Gpu {}

impl Gpu {
    pub fn new() -> Gpu {
        Gpu {}
    }
}

impl Component for Gpu {
    open spec fn recognizes(&self, command: u8) -> bool {
        is_fan_command(command)
    }

    open spec fn has_name(&self) -> bool {
        true
    }

    fn get_desc(&self) -> (desc: String)
        ensures
            desc@ == "GPU"@,
    {
        String::from_str("GPU")
    }

    fn handle_request(&mut self, msg: &Msg, fan: &mut Fan) -> (reply: Result<
        Option<Vec<u8>>,
        MsgError,
    >)
        ensures
            fan_request_outcome(
                FanIndex::GPU,
                msg.packet.command,
                msg.packet.payload@,
                old(fan)@,
                final(fan)@,
                reply,
            ),
    {
        handle_fan_request(FanIndex::GPU, msg, fan)
    }
}

} // verus!
