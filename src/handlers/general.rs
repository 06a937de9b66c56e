use vstd::prelude::*;
use crate::handlers::CommandHandler;
use crate::plan::Plan;
use crate::request::Request;

verus! {

/// Handler that lists the hotkeys of the remote session.
pub struct HotkeyLister;

impl HotkeyLister {
    /// The work this handler does against the remote session.
    pub open spec fn work(&self) -> Plan {
        Plan::Call(Request::ListHotkeys)
    }
}

impl CommandHandler for HotkeyLister {
    open spec fn planned(&self, p: Plan) -> bool {
        p == self.work()
    }

    open spec fn label(&self) -> Seq<char> {
        "Lists All Hotkeys"@
    }

    fn plan(&self) -> (p: Plan) {
        Plan::Call(Request::ListHotkeys)
    }

    fn description(&self) -> (d: &'static str) {
        "Lists All Hotkeys"
    }
}

/// Handler that triggers a hotkey by name.
pub struct HotkeyHandler {
    pub name: String,
}

impl HotkeyHandler {
    /// The work this handler does against the remote session.
    pub open spec fn work(&self) -> Plan {
        Plan::Call(Request::TriggerHotkey { name: self.name })
    }
}

impl CommandHandler for HotkeyHandler {
    open spec fn planned(&self, p: Plan) -> bool {
        p == self.work()
    }

    open spec fn label(&self) -> Seq<char> {
        "Trigger hotkey"@
    }

    fn plan(&self) -> (p: Plan) {
        Plan::Call(Request::TriggerHotkey { name: self.name.clone() })
    }

    fn description(&self) -> (d: &'static str) {
        "Trigger hotkey"
    }
}

/// Handler that asks for version information.
pub struct InfoHandler;

impl InfoHandler {
    /// The work this handler does against the remote session.
    pub open spec fn work(&self) -> Plan {
        Plan::Call(Request::Version)
    }
}

impl CommandHandler for InfoHandler {
    open spec fn planned(&self, p: Plan) -> bool {
        p == self.work()
    }

    open spec fn label(&self) -> Seq<char> {
        "Get OBS version information"@
    }

    fn plan(&self) -> (p: Plan) {
        Plan::Call(Request::Version)
    }

    fn description(&self) -> (d: &'static str) {
        "Get OBS version information"
    }
}

} // verus!
