use vstd::prelude::*;
use crate::command::Recording;
use crate::handlers::CommandHandler;
use crate::plan::Plan;
use crate::request::Request;

verus! {

/// Handler for recording commands.
pub struct RecordingHandler {
    pub action: Recording,
}

impl RecordingHandler {
    /// The work this handler does against the remote session.
    pub open spec fn work(&self) -> Plan {
        match self.action {
            Recording::Start => Plan::Call(Request::StartRecord),
            Recording::Stop => Plan::Call(Request::StopRecord),
            Recording::Toggle => Plan::Call(Request::ToggleRecord),
            Recording::Status => Plan::Call(Request::RecordStatus),
            Recording::StatusActive => Plan::CheckRecordingActive,
            Recording::Pause => Plan::Call(Request::PauseRecord),
            Recording::Resume => Plan::Call(Request::ResumeRecord),
            Recording::TogglePause => Plan::Call(Request::ToggleRecordPause),
        }
    }
}

impl CommandHandler for RecordingHandler {
    open spec fn planned(&self, p: Plan) -> bool {
        p == self.work()
    }

    open spec fn label(&self) -> Seq<char> {
        match self.action {
            Recording::Start => "Start recording"@,
            Recording::Stop => "Stop recording"@,
            Recording::Toggle => "Toggle recording"@,
            Recording::Status => "Get recording status"@,
            Recording::StatusActive => "Check if recording is active"@,
            Recording::Pause => "Pause recording"@,
            Recording::Resume => "Resume recording"@,
            Recording::TogglePause => "Toggle recording pause"@,
        }
    }

    fn plan(&self) -> (p: Plan) {
        match self.action {
            Recording::Start => Plan::Call(Request::StartRecord),
            Recording::Stop => Plan::Call(Request::StopRecord),
            Recording::Toggle => Plan::Call(Request::ToggleRecord),
            Recording::Status => Plan::Call(Request::RecordStatus),
            Recording::StatusActive => Plan::CheckRecordingActive,
            Recording::Pause => Plan::Call(Request::PauseRecord),
            Recording::Resume => Plan::Call(Request::ResumeRecord),
            Recording::TogglePause => Plan::Call(Request::ToggleRecordPause),
        }
    }

    fn description(&self) -> (d: &'static str) {
        match self.action {
            Recording::Start => "Start recording",
            Recording::Stop => "Stop recording",
            Recording::Toggle => "Toggle recording",
            Recording::Status => "Get recording status",
            Recording::StatusActive => "Check if recording is active",
            Recording::Pause => "Pause recording",
            Recording::Resume => "Resume recording",
            Recording::TogglePause => "Toggle recording pause",
        }
    }
}

} // verus!
