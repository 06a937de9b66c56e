use vstd::prelude::*;
use crate::handlers::CommandHandler;
use crate::plan::Plan;
use crate::request::Request;

verus! {

/// Handler that saves a screenshot of a source to a file.
pub struct SourceHandler {
    pub source: String,
    pub format: String,
    pub file_path: String,
    pub width: Option<u32>,
    pub height: Option<u32>,
    pub compression_quality: Option<i32>,
}

impl SourceHandler {
    /// The work this handler does against the remote session.
    pub open spec fn work(&self) -> Plan {
        Plan::Call(
            Request::SaveScreenshot {
                source: self.source,
                format: self.format,
                file_path: self.file_path,
                width: self.width,
                height: self.height,
                compression_quality: self.compression_quality,
            },
        )
    }
}

impl CommandHandler for SourceHandler {
    open spec fn planned(&self, p: Plan) -> bool {
        p == self.work()
    }

    open spec fn label(&self) -> Seq<char> {
        "Save source screenshot"@
    }

    fn plan(&self) -> (p: Plan) {
        Plan::Call(
            Request::SaveScreenshot {
                source: self.source.clone(),
                format: self.format.clone(),
                file_path: self.file_path.clone(),
                width: self.width,
                height: self.height,
                compression_quality: self.compression_quality,
            },
        )
    }

    fn description(&self) -> (d: &'static str) {
        "Save source screenshot"
    }
}

} // verus!
