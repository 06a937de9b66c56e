use vstd::prelude::*;
use crate::command::MediaInput;
use crate::handlers::CommandHandler;
use crate::plan::Plan;
use crate::request::{MediaAction, Request};

verus! {

/// Handler for media input commands.
pub struct MediaInputHandler {
    pub action: MediaInput,
}

impl MediaInputHandler {
    /// The work this handler does against the remote session.
    pub open spec fn work(&self) -> Plan {
        match self.action {
            MediaInput::SetCursor { name, cursor_secs } => Plan::Call(
                Request::SetMediaCursor { input: name, cursor_secs },
            ),
            MediaInput::Play { name } => Plan::Call(
                Request::TriggerMediaAction { input: name, action: MediaAction::Play },
            ),
            MediaInput::Pause { name } => Plan::Call(
                Request::TriggerMediaAction { input: name, action: MediaAction::Pause },
            ),
            MediaInput::Stop { name } => Plan::Call(
                Request::TriggerMediaAction { input: name, action: MediaAction::Stop },
            ),
            MediaInput::Restart { name } => Plan::Call(
                Request::TriggerMediaAction { input: name, action: MediaAction::Restart },
            ),
        }
    }
}

impl CommandHandler for MediaInputHandler {
    open spec fn planned(&self, p: Plan) -> bool {
        p == self.work()
    }

    open spec fn label(&self) -> Seq<char> {
        match self.action {
            MediaInput::SetCursor { .. } => "Set media input cursor"@,
            MediaInput::Play { .. } => "Play media input"@,
            MediaInput::Pause { .. } => "Pause media input"@,
            MediaInput::Stop { .. } => "Stop media input"@,
            MediaInput::Restart { .. } => "Restart media input"@,
        }
    }

    fn plan(&self) -> (p: Plan) {
        match &self.action {
            MediaInput::SetCursor { name, cursor_secs } => Plan::Call(
                Request::SetMediaCursor { input: name.clone(), cursor_secs: *cursor_secs },
            ),
            MediaInput::Play { name } => Plan::Call(
                Request::TriggerMediaAction { input: name.clone(), action: MediaAction::Play },
            ),
            MediaInput::Pause { name } => Plan::Call(
                Request::TriggerMediaAction { input: name.clone(), action: MediaAction::Pause },
            ),
            MediaInput::Stop { name } => Plan::Call(
                Request::TriggerMediaAction { input: name.clone(), action: MediaAction::Stop },
            ),
            MediaInput::Restart { name } => Plan::Call(
                Request::TriggerMediaAction { input: name.clone(), action: MediaAction::Restart },
            ),
        }
    }

    fn description(&self) -> (d: &'static str) {
        match &self.action {
            MediaInput::SetCursor { .. } => "Set media input cursor",
            MediaInput::Play { .. } => "Play media input",
            MediaInput::Pause { .. } => "Pause media input",
            MediaInput::Stop { .. } => "Stop media input",
            MediaInput::Restart { .. } => "Restart media input",
        }
    }
}

} // verus!
