use vstd::prelude::*;
use crate::error::ObsCmdError;
use crate::handlers::CommandHandler;
use crate::plan::{FlagTarget, Plan};
use crate::request::Request;
use crate::text::same_text;

verus! {

/// Handler for the audio group, whose sub-command is a word.
pub struct AudioHandler {
    pub command: String,
    pub device: String,
}

impl AudioHandler {
    /// The work this handler does against the remote session.
    pub open spec fn work(&self) -> Plan {
        if self.command@ == "mute"@ {
            Plan::Call(Request::SetInputMuted { input: self.device, muted: true })
        } else if self.command@ == "unmute"@ {
            Plan::Call(Request::SetInputMuted { input: self.device, muted: false })
        } else if self.command@ == "toggle"@ {
            Plan::Flip(FlagTarget::InputMute { input: self.device })
        } else if self.command@ == "status"@ {
            Plan::Call(Request::InputMuted { input: self.device })
        } else {
            Plan::Reject(ObsCmdError::InvalidAudioCommand { command: self.command })
        }
    }
}

impl CommandHandler for AudioHandler {
    open spec fn planned(&self, p: Plan) -> bool {
        p == self.work()
    }

    open spec fn label(&self) -> Seq<char> {
        if self.command@ == "mute"@ {
            "Mute audio device"@
        } else if self.command@ == "unmute"@ {
            "Unmute audio device"@
        } else if self.command@ == "toggle"@ {
            "Toggle audio device mute state"@
        } else if self.command@ == "status"@ {
            "Get audio device status"@
        } else {
            "Audio operation"@
        }
    }

    fn plan(&self) -> (p: Plan) {
        let device = self.device.clone();
        if same_text(self.command.as_str(), "mute") {
            Plan::Call(Request::SetInputMuted { input: device, muted: true })
        } else if same_text(self.command.as_str(), "unmute") {
            Plan::Call(Request::SetInputMuted { input: device, muted: false })
        } else if same_text(self.command.as_str(), "toggle") {
            Plan::Flip(FlagTarget::InputMute { input: device })
        } else if same_text(self.command.as_str(), "status") {
            Plan::Call(Request::InputMuted { input: device })
        } else {
            Plan::Reject(ObsCmdError::InvalidAudioCommand { command: self.command.clone() })
        }
    }

    fn description(&self) -> (d: &'static str) {
        if same_text(self.command.as_str(), "mute") {
            "Mute audio device"
        } else if same_text(self.command.as_str(), "unmute") {
            "Unmute audio device"
        } else if same_text(self.command.as_str(), "toggle") {
            "Toggle audio device mute state"
        } else if same_text(self.command.as_str(), "status") {
            "Get audio device status"
        } else {
            "Audio operation"
        }
    }
}

} // verus!
