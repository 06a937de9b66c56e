use vstd::prelude::*;
use crate::error::ObsCmdError;
use crate::handlers::CommandHandler;
use crate::plan::Plan;
use crate::request::Request;

verus! {

/// Checks that monitor `index` is one of those listed.
pub fn validate_monitor_index<T>(monitor_list: &[T], index: u8) -> (r: Result<(), ObsCmdError>)
    ensures
        (index as int) < monitor_list@.len() ==> r == Ok::<(), ObsCmdError>(()),
        (index as int) >= monitor_list@.len() ==> r == Err::<(), ObsCmdError>(
            ObsCmdError::MonitorNotAvailable { index: index as u32 },
        ),
{
    if monitor_list.len() <= index as usize {
        return Err(ObsCmdError::MonitorNotAvailable { index: index as u32 });
    }
    Ok(())
}

/// Handler that opens a fullscreen projector of the program output.
pub struct FullscreenProjectorHandler {
    pub monitor_index: u8,
}

impl FullscreenProjectorHandler {
    /// The work this handler does against the remote session.
    pub open spec fn work(&self) -> Plan {
        Plan::OnMonitor {
            index: self.monitor_index,
            open: Request::OpenVideoMixProjector { monitor_index: self.monitor_index },
        }
    }
}

impl CommandHandler for FullscreenProjectorHandler {
    open spec fn planned(&self, p: Plan) -> bool {
        p == self.work()
    }

    open spec fn label(&self) -> Seq<char> {
        "Open fullscreen projector"@
    }

    fn plan(&self) -> (p: Plan) {
        Plan::OnMonitor {
            index: self.monitor_index,
            open: Request::OpenVideoMixProjector { monitor_index: self.monitor_index },
        }
    }

    fn description(&self) -> (d: &'static str) {
        "Open fullscreen projector"
    }
}

/// Handler that opens a projector of one source.
pub struct SourceProjectorHandler {
    pub name: String,
    pub monitor_index: u8,
}

impl SourceProjectorHandler {
    /// The work this handler does against the remote session.
    pub open spec fn work(&self) -> Plan {
        Plan::OnMonitor {
            index: self.monitor_index,
            open: Request::OpenSourceProjector {
                source: self.name,
                monitor_index: self.monitor_index,
            },
        }
    }
}

impl CommandHandler for SourceProjectorHandler {
    open spec fn planned(&self, p: Plan) -> bool {
        p == self.work()
    }

    open spec fn label(&self) -> Seq<char> {
        "Open source projector"@
    }

    fn plan(&self) -> (p: Plan) {
        Plan::OnMonitor {
            index: self.monitor_index,
            open: Request::OpenSourceProjector {
                source: self.name.clone(),
                monitor_index: self.monitor_index,
            },
        }
    }

    fn description(&self) -> (d: &'static str) {
        "Open source projector"
    }
}

} // verus!
