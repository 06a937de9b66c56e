use vstd::prelude::*;
use crate::error::ObsCmdError;
use crate::handlers::CommandHandler;
use crate::plan::{FlagTarget, Plan};
use crate::request::Request;
use crate::text::same_text;

verus! {

/// Handler for the filter group, whose sub-command is a word.
pub struct FilterHandler {
    pub command: String,
    pub source: String,
    pub filter: String,
}

impl FilterHandler {
    /// The work this handler does against the remote session.
    pub open spec fn work(&self) -> Plan {
        if self.command@ == "enable"@ {
            Plan::Call(
                Request::SetFilterEnabled { source: self.source, filter: self.filter, enabled: true },
            )
        } else if self.command@ == "disable"@ {
            Plan::Call(
                Request::SetFilterEnabled { source: self.source, filter: self.filter, enabled: false },
            )
        } else if self.command@ == "toggle"@ {
            Plan::Flip(FlagTarget::Filter { source: self.source, filter: self.filter })
        } else {
            Plan::Reject(ObsCmdError::InvalidFilterCommand { command: self.command })
        }
    }
}

impl CommandHandler for FilterHandler {
    open spec fn planned(&self, p: Plan) -> bool {
        p == self.work()
    }

    open spec fn label(&self) -> Seq<char> {
        if self.command@ == "enable"@ {
            "Enable filter"@
        } else if self.command@ == "disable"@ {
            "Disable filter"@
        } else if self.command@ == "toggle"@ {
            "Toggle filter"@
        } else {
            "Filter operation"@
        }
    }

    fn plan(&self) -> (p: Plan) {
        let source = self.source.clone();
        let filter = self.filter.clone();
        if same_text(self.command.as_str(), "enable") {
            Plan::Call(Request::SetFilterEnabled { source, filter, enabled: true })
        } else if same_text(self.command.as_str(), "disable") {
            Plan::Call(Request::SetFilterEnabled { source, filter, enabled: false })
        } else if same_text(self.command.as_str(), "toggle") {
            Plan::Flip(FlagTarget::Filter { source, filter })
        } else {
            Plan::Reject(ObsCmdError::InvalidFilterCommand { command: self.command.clone() })
        }
    }

    fn description(&self) -> (d: &'static str) {
        if same_text(self.command.as_str(), "enable") {
            "Enable filter"
        } else if same_text(self.command.as_str(), "disable") {
            "Disable filter"
        } else if same_text(self.command.as_str(), "toggle") {
            "Toggle filter"
        } else {
            "Filter operation"
        }
    }
}

} // verus!
