use vstd::prelude::*;
use crate::command::Input;
use crate::error::ObsCmdError;
use crate::handlers::CommandHandler;
use crate::plan::Plan;
use crate::request::{copy_string_option, Request};
use crate::text::same_text;

verus! {

/// The audio monitor types an input accepts.
pub open spec fn is_monitor_type(t: Seq<char>) -> bool {
    t == "none"@ || t == "monitorOnly"@ || t == "both"@
}

/// Whether `t` names an audio monitor type.
pub fn check_monitor_type(t: &str) -> (r: bool)
    ensures
        r == is_monitor_type(t@),
{
    same_text(t, "none") || same_text(t, "monitorOnly") || same_text(t, "both")
}

/// Handler for input management commands. Only listing reaches the remote
/// session; the other operations are reported and checked, not performed.
pub struct InputCmdHandler {
    pub action: Input,
}

impl InputCmdHandler {
    /// The work this handler does against the remote session.
    pub open spec fn work(&self) -> Plan {
        match self.action {
            Input::List { kind } => Plan::Call(Request::ListInputs { kind }),
            Input::ListKinds => Plan::Call(Request::ListInputKinds),
            Input::AudioMonitorType { get, set, .. } => match set {
                Some(t) => if !get && !is_monitor_type(t@) {
                    Plan::Reject(ObsCmdError::InvalidAudioMonitorType { monitor_type: t })
                } else {
                    Plan::Report
                },
                None => Plan::Report,
            },
            _ => Plan::Report,
        }
    }
}

impl CommandHandler for InputCmdHandler {
    open spec fn planned(&self, p: Plan) -> bool {
        p == self.work()
    }

    open spec fn label(&self) -> Seq<char> {
        match self.action {
            Input::List { .. } => "List inputs"@,
            Input::ListKinds => "List available input kinds"@,
            Input::Create { .. } => "Create new input"@,
            Input::Remove { .. } => "Remove input"@,
            Input::Rename { .. } => "Rename input"@,
            Input::Settings { .. } => "Manage input settings"@,
            Input::Volume { .. } => "Manage input volume"@,
            Input::Mute { .. } => "Manage input mute state"@,
            Input::AudioBalance { .. } => "Manage audio balance"@,
            Input::AudioSyncOffset { .. } => "Manage audio sync offset"@,
            Input::AudioMonitorType { .. } => "Manage audio monitor type"@,
            Input::AudioTracks { .. } => "Manage audio tracks"@,
            Input::DefaultSettings { .. } => "Get default settings for input kind"@,
            Input::Specials => "List special inputs"@,
        }
    }

    fn plan(&self) -> (p: Plan) {
        match &self.action {
            Input::List { kind } => Plan::Call(Request::ListInputs { kind: copy_string_option(kind) }),
            Input::ListKinds => Plan::Call(Request::ListInputKinds),
            Input::AudioMonitorType { get, set, .. } => match set {
                Some(t) => if !*get && !check_monitor_type(t.as_str()) {
                    Plan::Reject(ObsCmdError::InvalidAudioMonitorType { monitor_type: t.clone() })
                } else {
                    Plan::Report
                },
                None => Plan::Report,
            },
            _ => Plan::Report,
        }
    }

    fn description(&self) -> (d: &'static str) {
        match &self.action {
            Input::List { .. } => "List inputs",
            Input::ListKinds => "List available input kinds",
            Input::Create { .. } => "Create new input",
            Input::Remove { .. } => "Remove input",
            Input::Rename { .. } => "Rename input",
            Input::Settings { .. } => "Manage input settings",
            Input::Volume { .. } => "Manage input volume",
            Input::Mute { .. } => "Manage input mute state",
            Input::AudioBalance { .. } => "Manage audio balance",
            Input::AudioSyncOffset { .. } => "Manage audio sync offset",
            Input::AudioMonitorType { .. } => "Manage audio monitor type",
            Input::AudioTracks { .. } => "Manage audio tracks",
            Input::DefaultSettings { .. } => "Get default settings for input kind",
            Input::Specials => "List special inputs",
        }
    }
}

} // verus!
