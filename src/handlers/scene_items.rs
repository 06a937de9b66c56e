use vstd::prelude::*;
use crate::address::{address_of, resolve_address};
use crate::command::SceneItem;
use crate::error::ObsCmdError;
use crate::handlers::CommandHandler;
use crate::plan::{step_of, ItemOp, Plan, Step};
use crate::request::Reply;
use crate::request::Request;
use crate::text::{blend_mode_named, lowercase_of, parse_blend_mode};

verus! {

/// Handler for scene item commands. Every command on one item resolves the
/// item's identifier afresh, inside the container its name designates.
pub struct SceneItemHandler {
    pub action: SceneItem,
}

/// `p` acts with `op` on the item that `source` names, `scene` being the
/// container of a name without a separator.
pub open spec fn acts_on_item(p: Plan, scene: String, source: String, op: ItemOp) -> bool {
    &&& p matches Plan::OnItem { address, op: o }
    &&& o == op
    &&& address@ == address_of(scene@, source@)
}

/// A blend mode name outside the supported set, in any case, is refused
/// before any remote call: whatever the session would answer, no request is
/// sent.
pub proof fn lemma_unsupported_blend_mode_rejected(
    handler: SceneItemHandler,
    p: Plan,
    rs: Seq<Reply>,
)
    requires
        handler.action matches SceneItem::SetBlendMode { blend_mode, .. } && blend_mode_named(
            lowercase_of(blend_mode@),
        ) is None,
        handler.planned(p),
    ensures
        handler.action matches SceneItem::SetBlendMode { blend_mode, .. } && step_of(p, rs)
            == Step::Finished(Err(ObsCmdError::InvalidBlendMode { blend_mode })),
{
}

fn item_plan(scene: &String, source: &String, op: ItemOp) -> (p: Plan)
    ensures
        acts_on_item(p, *scene, *source, op),
{
    Plan::OnItem { address: resolve_address(scene.as_str(), source.as_str()), op }
}

impl CommandHandler for SceneItemHandler {
    open spec fn planned(&self, p: Plan) -> bool {
        match self.action {
            SceneItem::List { scene } => p == Plan::Call(Request::ListSceneItems { scene }),
            SceneItem::Create { scene, source, enabled } => p == Plan::Call(
                Request::CreateSceneItem { scene, source, enabled },
            ),
            SceneItem::Remove { scene, source } => acts_on_item(p, scene, source, ItemOp::Remove),
            SceneItem::Duplicate { scene, source } => acts_on_item(
                p,
                scene,
                source,
                ItemOp::Duplicate,
            ),
            SceneItem::Enable { scene, source } => acts_on_item(
                p,
                scene,
                source,
                ItemOp::SetEnabled { enabled: true },
            ),
            SceneItem::Disable { scene, source } => acts_on_item(
                p,
                scene,
                source,
                ItemOp::SetEnabled { enabled: false },
            ),
            SceneItem::Toggle { scene, source } => acts_on_item(
                p,
                scene,
                source,
                ItemOp::ToggleEnabled,
            ),
            SceneItem::Lock { scene, source } => acts_on_item(
                p,
                scene,
                source,
                ItemOp::SetLocked { locked: true },
            ),
            SceneItem::Unlock { scene, source } => acts_on_item(
                p,
                scene,
                source,
                ItemOp::SetLocked { locked: false },
            ),
            SceneItem::GetTransform { scene, source } => acts_on_item(
                p,
                scene,
                source,
                ItemOp::GetTransform,
            ),
            SceneItem::SetTransform { scene, source } => acts_on_item(
                p,
                scene,
                source,
                ItemOp::SetTransform,
            ),
            SceneItem::GetIndex { scene, source } => acts_on_item(
                p,
                scene,
                source,
                ItemOp::GetIndex,
            ),
            SceneItem::SetIndex { scene, source, index } => acts_on_item(
                p,
                scene,
                source,
                ItemOp::SetIndex { index },
            ),
            SceneItem::GetBlendMode { scene, source } => acts_on_item(
                p,
                scene,
                source,
                ItemOp::GetBlendMode,
            ),
            SceneItem::SetBlendMode { scene, source, blend_mode } => match blend_mode_named(
                lowercase_of(blend_mode@),
            ) {
                Some(mode) => acts_on_item(p, scene, source, ItemOp::SetBlendMode { mode }),
                None => p == Plan::Reject(ObsCmdError::InvalidBlendMode { blend_mode }),
            },
        }
    }

    open spec fn label(&self) -> Seq<char> {
        match self.action {
            SceneItem::List { .. } => "List scene items in a scene"@,
            SceneItem::Create { .. } => "Create a new scene item"@,
            SceneItem::Remove { .. } => "Remove a scene item"@,
            SceneItem::Duplicate { .. } => "Duplicate a scene item"@,
            SceneItem::Enable { .. } => "Enable a scene item"@,
            SceneItem::Disable { .. } => "Disable a scene item"@,
            SceneItem::Toggle { .. } => "Toggle a scene item"@,
            SceneItem::Lock { .. } => "Lock a scene item"@,
            SceneItem::Unlock { .. } => "Unlock a scene item"@,
            SceneItem::GetTransform { .. } => "Get scene item transform"@,
            SceneItem::SetTransform { .. } => "Set scene item transform"@,
            SceneItem::GetIndex { .. } => "Get scene item index"@,
            SceneItem::SetIndex { .. } => "Set scene item index"@,
            SceneItem::GetBlendMode { .. } => "Get scene item blend mode"@,
            SceneItem::SetBlendMode { .. } => "Set scene item blend mode"@,
        }
    }

    fn plan(&self) -> (p: Plan) {
        match &self.action {
            SceneItem::List { scene } => Plan::Call(Request::ListSceneItems { scene: scene.clone() }),
            SceneItem::Create { scene, source, enabled } => Plan::Call(
                Request::CreateSceneItem {
                    scene: scene.clone(),
                    source: source.clone(),
                    enabled: *enabled,
                },
            ),
            SceneItem::Remove { scene, source } => item_plan(scene, source, ItemOp::Remove),
            SceneItem::Duplicate { scene, source } => item_plan(scene, source, ItemOp::Duplicate),
            SceneItem::Enable { scene, source } => item_plan(
                scene,
                source,
                ItemOp::SetEnabled { enabled: true },
            ),
            SceneItem::Disable { scene, source } => item_plan(
                scene,
                source,
                ItemOp::SetEnabled { enabled: false },
            ),
            SceneItem::Toggle { scene, source } => item_plan(scene, source, ItemOp::ToggleEnabled),
            SceneItem::Lock { scene, source } => item_plan(
                scene,
                source,
                ItemOp::SetLocked { locked: true },
            ),
            SceneItem::Unlock { scene, source } => item_plan(
                scene,
                source,
                ItemOp::SetLocked { locked: false },
            ),
            SceneItem::GetTransform { scene, source } => item_plan(
                scene,
                source,
                ItemOp::GetTransform,
            ),
            SceneItem::SetTransform { scene, source } => item_plan(
                scene,
                source,
                ItemOp::SetTransform,
            ),
            SceneItem::GetIndex { scene, source } => item_plan(scene, source, ItemOp::GetIndex),
            SceneItem::SetIndex { scene, source, index } => item_plan(
                scene,
                source,
                ItemOp::SetIndex { index: *index },
            ),
            SceneItem::GetBlendMode { scene, source } => item_plan(
                scene,
                source,
                ItemOp::GetBlendMode,
            ),
            SceneItem::SetBlendMode { scene, source, blend_mode } => {
                // The name is checked before any remote call is made.
                match parse_blend_mode(blend_mode.as_str()) {
                    Ok(mode) => item_plan(scene, source, ItemOp::SetBlendMode { mode }),
                    Err(_) => Plan::Reject(
                        ObsCmdError::InvalidBlendMode { blend_mode: blend_mode.clone() },
                    ),
                }
            },
        }
    }

    fn description(&self) -> (d: &'static str) {
        match &self.action {
            SceneItem::List { .. } => "List scene items in a scene",
            SceneItem::Create { .. } => "Create a new scene item",
            SceneItem::Remove { .. } => "Remove a scene item",
            SceneItem::Duplicate { .. } => "Duplicate a scene item",
            SceneItem::Enable { .. } => "Enable a scene item",
            SceneItem::Disable { .. } => "Disable a scene item",
            SceneItem::Toggle { .. } => "Toggle a scene item",
            SceneItem::Lock { .. } => "Lock a scene item",
            SceneItem::Unlock { .. } => "Unlock a scene item",
            SceneItem::GetTransform { .. } => "Get scene item transform",
            SceneItem::SetTransform { .. } => "Set scene item transform",
            SceneItem::GetIndex { .. } => "Get scene item index",
            SceneItem::SetIndex { .. } => "Set scene item index",
            SceneItem::GetBlendMode { .. } => "Get scene item blend mode",
            SceneItem::SetBlendMode { .. } => "Set scene item blend mode",
        }
    }
}

} // verus!
