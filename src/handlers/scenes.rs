use vstd::prelude::*;
use crate::command::Scene;
use crate::handlers::CommandHandler;
use crate::plan::{FlagTarget, Plan};
use crate::request::Request;

verus! {

/// Handler for scene, transition, studio mode and preview commands.
pub struct SceneHandler {
    pub action: Scene,
}

impl SceneHandler {
    /// The work this handler does against the remote session.
    pub open spec fn work(&self) -> Plan {
        match self.action {
            Scene::Current => Plan::Call(Request::CurrentProgramScene),
            Scene::Switch { scene_name } => Plan::Call(
                Request::SetCurrentProgramScene { scene: scene_name },
            ),
            Scene::List => Plan::Call(Request::ListScenes),
            Scene::Create { scene_name } => Plan::Call(Request::CreateScene { scene: scene_name }),
            Scene::Remove { scene_name } => Plan::Call(Request::RemoveScene { scene: scene_name }),
            Scene::Rename { scene_name, new_name } => Plan::Call(
                Request::RenameScene { scene: scene_name, new_name },
            ),
            Scene::TransitionList => Plan::Call(Request::ListTransitions),
            Scene::TransitionCurrent => Plan::Call(Request::CurrentTransition),
            Scene::TransitionSet { transition_name } => Plan::Call(
                Request::SetCurrentTransition { transition: transition_name },
            ),
            Scene::TransitionDuration { duration_ms } => Plan::Call(
                Request::SetTransitionDuration { duration_ms },
            ),
            Scene::TransitionTrigger => Plan::Call(Request::TriggerTransition),
            Scene::StudioModeStatus => Plan::Call(Request::StudioModeEnabled),
            Scene::StudioModeEnable => Plan::Call(Request::SetStudioModeEnabled { enabled: true }),
            Scene::StudioModeDisable => Plan::Call(Request::SetStudioModeEnabled { enabled: false }),
            Scene::StudioModeToggle => Plan::Flip(FlagTarget::StudioMode),
            Scene::StudioModeTransition => Plan::Call(Request::TriggerTransition),
            Scene::PreviewCurrent => Plan::Call(Request::CurrentPreviewScene),
            Scene::PreviewSet { scene_name } => Plan::Call(
                Request::SetCurrentPreviewScene { scene: scene_name },
            ),
        }
    }
}

impl CommandHandler for SceneHandler {
    open spec fn planned(&self, p: Plan) -> bool {
        p == self.work()
    }

    open spec fn label(&self) -> Seq<char> {
        match self.action {
            Scene::Current => "Get current scene"@,
            Scene::Switch { .. } => "Switch to scene"@,
            Scene::List => "List all scenes"@,
            Scene::Create { .. } => "Create new scene"@,
            Scene::Remove { .. } => "Remove scene"@,
            Scene::Rename { .. } => "Rename scene"@,
            Scene::TransitionList => "List available transitions"@,
            Scene::TransitionCurrent => "Get current transition"@,
            Scene::TransitionSet { .. } => "Set current transition"@,
            Scene::TransitionDuration { .. } => "Set transition duration"@,
            Scene::TransitionTrigger => "Trigger transition"@,
            Scene::StudioModeStatus => "Get studio mode status"@,
            Scene::StudioModeEnable => "Enable studio mode"@,
            Scene::StudioModeDisable => "Disable studio mode"@,
            Scene::StudioModeToggle => "Toggle studio mode"@,
            Scene::StudioModeTransition => "Trigger studio mode transition"@,
            Scene::PreviewCurrent => "Get current preview scene"@,
            Scene::PreviewSet { .. } => "Set preview scene"@,
        }
    }

    fn plan(&self) -> (p: Plan) {
        match &self.action {
            Scene::Current => Plan::Call(Request::CurrentProgramScene),
            Scene::Switch { scene_name } => Plan::Call(
                Request::SetCurrentProgramScene { scene: scene_name.clone() },
            ),
            Scene::List => Plan::Call(Request::ListScenes),
            Scene::Create { scene_name } => Plan::Call(
                Request::CreateScene { scene: scene_name.clone() },
            ),
            Scene::Remove { scene_name } => Plan::Call(
                Request::RemoveScene { scene: scene_name.clone() },
            ),
            Scene::Rename { scene_name, new_name } => Plan::Call(
                Request::RenameScene { scene: scene_name.clone(), new_name: new_name.clone() },
            ),
            Scene::TransitionList => Plan::Call(Request::ListTransitions),
            Scene::TransitionCurrent => Plan::Call(Request::CurrentTransition),
            Scene::TransitionSet { transition_name } => Plan::Call(
                Request::SetCurrentTransition { transition: transition_name.clone() },
            ),
            Scene::TransitionDuration { duration_ms } => Plan::Call(
                Request::SetTransitionDuration { duration_ms: *duration_ms },
            ),
            Scene::TransitionTrigger => Plan::Call(Request::TriggerTransition),
            Scene::StudioModeStatus => Plan::Call(Request::StudioModeEnabled),
            Scene::StudioModeEnable => Plan::Call(Request::SetStudioModeEnabled { enabled: true }),
            Scene::StudioModeDisable => Plan::Call(Request::SetStudioModeEnabled { enabled: false }),
            Scene::StudioModeToggle => Plan::Flip(FlagTarget::StudioMode),
            Scene::StudioModeTransition => Plan::Call(Request::TriggerTransition),
            Scene::PreviewCurrent => Plan::Call(Request::CurrentPreviewScene),
            Scene::PreviewSet { scene_name } => Plan::Call(
                Request::SetCurrentPreviewScene { scene: scene_name.clone() },
            ),
        }
    }

    fn description(&self) -> (d: &'static str) {
        match &self.action {
            Scene::Current => "Get current scene",
            Scene::Switch { .. } => "Switch to scene",
            Scene::List => "List all scenes",
            Scene::Create { .. } => "Create new scene",
            Scene::Remove { .. } => "Remove scene",
            Scene::Rename { .. } => "Rename scene",
            Scene::TransitionList => "List available transitions",
            Scene::TransitionCurrent => "Get current transition",
            Scene::TransitionSet { .. } => "Set current transition",
            Scene::TransitionDuration { .. } => "Set transition duration",
            Scene::TransitionTrigger => "Trigger transition",
            Scene::StudioModeStatus => "Get studio mode status",
            Scene::StudioModeEnable => "Enable studio mode",
            Scene::StudioModeDisable => "Disable studio mode",
            Scene::StudioModeToggle => "Toggle studio mode",
            Scene::StudioModeTransition => "Trigger studio mode transition",
            Scene::PreviewCurrent => "Get current preview scene",
            Scene::PreviewSet { .. } => "Set preview scene",
        }
    }
}

} // verus!
