use vstd::prelude::*;
use crate::command::Replay;
use crate::handlers::CommandHandler;
use crate::plan::Plan;
use crate::request::Request;

verus! {

/// Handler for replay buffer commands.
pub struct ReplayBufferHandler {
    pub action: Replay,
}

impl ReplayBufferHandler {
    /// The work this handler does against the remote session.
    pub open spec fn work(&self) -> Plan {
        match self.action {
            Replay::Start => Plan::Call(Request::StartReplayBuffer),
            Replay::Stop => Plan::Call(Request::StopReplayBuffer),
            Replay::Toggle => Plan::Call(Request::ToggleReplayBuffer),
            Replay::Save => Plan::Call(Request::SaveReplayBuffer),
            Replay::Status => Plan::Call(Request::ReplayBufferStatus),
            Replay::LastReplay => Plan::RequireLastReplay,
        }
    }
}

impl CommandHandler for ReplayBufferHandler {
    open spec fn planned(&self, p: Plan) -> bool {
        p == self.work()
    }

    open spec fn label(&self) -> Seq<char> {
        match self.action {
            Replay::Start => "Start replay buffer"@,
            Replay::Stop => "Stop replay buffer"@,
            Replay::Toggle => "Toggle replay buffer"@,
            Replay::Save => "Save replay buffer"@,
            Replay::Status => "Get replay buffer status"@,
            Replay::LastReplay => "Get last replay path"@,
        }
    }

    fn plan(&self) -> (p: Plan) {
        match self.action {
            Replay::Start => Plan::Call(Request::StartReplayBuffer),
            Replay::Stop => Plan::Call(Request::StopReplayBuffer),
            Replay::Toggle => Plan::Call(Request::ToggleReplayBuffer),
            Replay::Save => Plan::Call(Request::SaveReplayBuffer),
            Replay::Status => Plan::Call(Request::ReplayBufferStatus),
            Replay::LastReplay => Plan::RequireLastReplay,
        }
    }

    fn description(&self) -> (d: &'static str) {
        match self.action {
            Replay::Start => "Start replay buffer",
            Replay::Stop => "Stop replay buffer",
            Replay::Toggle => "Toggle replay buffer",
            Replay::Save => "Save replay buffer",
            Replay::Status => "Get replay buffer status",
            Replay::LastReplay => "Get last replay path",
        }
    }
}

} // verus!
