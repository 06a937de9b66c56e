use vstd::prelude::*;
use crate::command::Streaming;
use crate::handlers::CommandHandler;
use crate::plan::Plan;
use crate::request::Request;

verus! {

/// Handler for streaming commands.
pub struct StreamingHandler {
    pub action: Streaming,
}

impl StreamingHandler {
    /// The work this handler does against the remote session.
    pub open spec fn work(&self) -> Plan {
        match self.action {
            Streaming::Start => Plan::Call(Request::StartStream),
            Streaming::Stop => Plan::Call(Request::StopStream),
            Streaming::Status => Plan::Call(Request::StreamStatus),
            Streaming::Toggle => Plan::Call(Request::ToggleStream),
        }
    }
}

impl CommandHandler for StreamingHandler {
    open spec fn planned(&self, p: Plan) -> bool {
        p == self.work()
    }

    open spec fn label(&self) -> Seq<char> {
        match self.action {
            Streaming::Start => "Start streaming"@,
            Streaming::Stop => "Stop streaming"@,
            Streaming::Status => "Get streaming status"@,
            Streaming::Toggle => "Toggle streaming"@,
        }
    }

    fn plan(&self) -> (p: Plan) {
        match self.action {
            Streaming::Start => Plan::Call(Request::StartStream),
            Streaming::Stop => Plan::Call(Request::StopStream),
            Streaming::Status => Plan::Call(Request::StreamStatus),
            Streaming::Toggle => Plan::Call(Request::ToggleStream),
        }
    }

    fn description(&self) -> (d: &'static str) {
        match self.action {
            Streaming::Start => "Start streaming",
            Streaming::Stop => "Stop streaming",
            Streaming::Status => "Get streaming status",
            Streaming::Toggle => "Toggle streaming",
        }
    }
}

} // verus!
