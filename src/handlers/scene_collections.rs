use vstd::prelude::*;
use crate::command::SceneCollection;
use crate::handlers::CommandHandler;
use crate::plan::Plan;
use crate::request::Request;

verus! {

/// Handler for scene collection commands.
pub struct SceneCollectionHandler {
    pub action: SceneCollection,
}

impl SceneCollectionHandler {
    /// The work this handler does against the remote session.
    pub open spec fn work(&self) -> Plan {
        match self.action {
            SceneCollection::Current => Plan::Call(Request::CurrentSceneCollection),
            SceneCollection::List => Plan::Call(Request::ListSceneCollections),
            SceneCollection::Create { scene_collection_name } => Plan::Call(
                Request::CreateSceneCollection { name: scene_collection_name },
            ),
            SceneCollection::Switch { scene_collection_name } => Plan::Call(
                Request::SetCurrentSceneCollection { name: scene_collection_name },
            ),
        }
    }
}

impl CommandHandler for SceneCollectionHandler {
    open spec fn planned(&self, p: Plan) -> bool {
        p == self.work()
    }

    open spec fn label(&self) -> Seq<char> {
        match self.action {
            SceneCollection::Current => "Get current scene collection"@,
            SceneCollection::List => "List available scene collections"@,
            SceneCollection::Create { .. } => "Create new scene collection"@,
            SceneCollection::Switch { .. } => "Switch to scene collection"@,
        }
    }

    fn plan(&self) -> (p: Plan) {
        match &self.action {
            SceneCollection::Current => Plan::Call(Request::CurrentSceneCollection),
            SceneCollection::List => Plan::Call(Request::ListSceneCollections),
            SceneCollection::Create { scene_collection_name } => Plan::Call(
                Request::CreateSceneCollection { name: scene_collection_name.clone() },
            ),
            SceneCollection::Switch { scene_collection_name } => Plan::Call(
                Request::SetCurrentSceneCollection { name: scene_collection_name.clone() },
            ),
        }
    }

    fn description(&self) -> (d: &'static str) {
        match &self.action {
            SceneCollection::Current => "Get current scene collection",
            SceneCollection::List => "List available scene collections",
            SceneCollection::Create { .. } => "Create new scene collection",
            SceneCollection::Switch { .. } => "Switch to scene collection",
        }
    }
}

} // verus!
