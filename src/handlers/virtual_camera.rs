use vstd::prelude::*;
use crate::command::VirtualCamera;
use crate::handlers::CommandHandler;
use crate::plan::Plan;
use crate::request::Request;

verus! {

/// Handler for virtual camera commands.
pub struct VirtualCameraHandler {
    pub action: VirtualCamera,
}

impl VirtualCameraHandler {
    /// The work this handler does against the remote session.
    pub open spec fn work(&self) -> Plan {
        match self.action {
            VirtualCamera::Start => Plan::Call(Request::StartVirtualCam),
            VirtualCamera::Stop => Plan::Call(Request::StopVirtualCam),
            VirtualCamera::Toggle => Plan::Call(Request::ToggleVirtualCam),
        }
    }
}

impl CommandHandler for VirtualCameraHandler {
    open spec fn planned(&self, p: Plan) -> bool {
        p == self.work()
    }

    open spec fn label(&self) -> Seq<char> {
        match self.action {
            VirtualCamera::Start => "Start virtual camera"@,
            VirtualCamera::Stop => "Stop virtual camera"@,
            VirtualCamera::Toggle => "Toggle virtual camera"@,
        }
    }

    fn plan(&self) -> (p: Plan) {
        match self.action {
            VirtualCamera::Start => Plan::Call(Request::StartVirtualCam),
            VirtualCamera::Stop => Plan::Call(Request::StopVirtualCam),
            VirtualCamera::Toggle => Plan::Call(Request::ToggleVirtualCam),
        }
    }

    fn description(&self) -> (d: &'static str) {
        match self.action {
            VirtualCamera::Start => "Start virtual camera",
            VirtualCamera::Stop => "Stop virtual camera",
            VirtualCamera::Toggle => "Toggle virtual camera",
        }
    }
}

} // verus!
