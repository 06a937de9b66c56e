use vstd::prelude::*;
use crate::command::{Profile, RecordDirectory, StreamService, VideoSettings};
use crate::handlers::CommandHandler;
use crate::plan::Plan;
use crate::request::{copy_string_option, Request};

verus! {

/// Handler for profile commands.
pub struct ProfileHandler {
    pub action: Profile,
}

impl ProfileHandler {
    /// The work this handler does against the remote session.
    pub open spec fn work(&self) -> Plan {
        match self.action {
            Profile::Current => Plan::Call(Request::CurrentProfile),
            Profile::List => Plan::Call(Request::ListProfiles),
            Profile::Create { profile_name } => Plan::Call(
                Request::CreateProfile { name: profile_name },
            ),
            Profile::Remove { profile_name } => Plan::Call(
                Request::RemoveProfile { name: profile_name },
            ),
            Profile::Switch { profile_name } => Plan::Call(
                Request::SetCurrentProfile { name: profile_name },
            ),
        }
    }
}

impl CommandHandler for ProfileHandler {
    open spec fn planned(&self, p: Plan) -> bool {
        p == self.work()
    }

    open spec fn label(&self) -> Seq<char> {
        match self.action {
            Profile::Current => "Get current profile"@,
            Profile::List => "List available profiles"@,
            Profile::Create { .. } => "Create new profile"@,
            Profile::Remove { .. } => "Remove profile"@,
            Profile::Switch { .. } => "Switch to profile"@,
        }
    }

    fn plan(&self) -> (p: Plan) {
        match &self.action {
            Profile::Current => Plan::Call(Request::CurrentProfile),
            Profile::List => Plan::Call(Request::ListProfiles),
            Profile::Create { profile_name } => Plan::Call(
                Request::CreateProfile { name: profile_name.clone() },
            ),
            Profile::Remove { profile_name } => Plan::Call(
                Request::RemoveProfile { name: profile_name.clone() },
            ),
            Profile::Switch { profile_name } => Plan::Call(
                Request::SetCurrentProfile { name: profile_name.clone() },
            ),
        }
    }

    fn description(&self) -> (d: &'static str) {
        match &self.action {
            Profile::Current => "Get current profile",
            Profile::List => "List available profiles",
            Profile::Create { .. } => "Create new profile",
            Profile::Remove { .. } => "Remove profile",
            Profile::Switch { .. } => "Switch to profile",
        }
    }
}

/// Two settings that only change together: both given, or neither is sent.
pub open spec fn both(a: Option<u32>, b: Option<u32>) -> Option<(u32, u32)> {
    match (a, b) {
        (Some(x), Some(y)) => Some((x, y)),
        _ => None,
    }
}

pub fn pair_of(a: Option<u32>, b: Option<u32>) -> (r: Option<(u32, u32)>)
    ensures
        r == both(a, b),
{
    match (a, b) {
        (Some(x), Some(y)) => Some((x, y)),
        _ => None,
    }
}

/// Handler for video settings commands.
pub struct VideoSettingsHandler {
    pub action: VideoSettings,
}

impl VideoSettingsHandler {
    /// The work this handler does against the remote session.
    pub open spec fn work(&self) -> Plan {
        match self.action {
            VideoSettings::Get => Plan::Call(Request::VideoSettings),
            VideoSettings::Update {
                base_width,
                base_height,
                output_width,
                output_height,
                fps_num,
                fps_den,
            } => Plan::Call(
                Request::SetVideoSettings {
                    base: both(base_width, base_height),
                    output: both(output_width, output_height),
                    fps: both(fps_num, fps_den),
                },
            ),
        }
    }
}

impl CommandHandler for VideoSettingsHandler {
    open spec fn planned(&self, p: Plan) -> bool {
        p == self.work()
    }

    open spec fn label(&self) -> Seq<char> {
        match self.action {
            VideoSettings::Get => "Get current video settings"@,
            VideoSettings::Update { .. } => "Set video settings"@,
        }
    }

    fn plan(&self) -> (p: Plan) {
        match self.action {
            VideoSettings::Get => Plan::Call(Request::VideoSettings),
            VideoSettings::Update {
                base_width,
                base_height,
                output_width,
                output_height,
                fps_num,
                fps_den,
            } => Plan::Call(
                Request::SetVideoSettings {
                    base: pair_of(base_width, base_height),
                    output: pair_of(output_width, output_height),
                    fps: pair_of(fps_num, fps_den),
                },
            ),
        }
    }

    fn description(&self) -> (d: &'static str) {
        match self.action {
            VideoSettings::Get => "Get current video settings",
            VideoSettings::Update { .. } => "Set video settings",
        }
    }
}

/// Handler for stream service settings commands.
pub struct StreamServiceHandler {
    pub action: StreamService,
}

impl StreamServiceHandler {
    /// The work this handler does against the remote session.
    pub open spec fn work(&self) -> Plan {
        match self.action {
            StreamService::Get => Plan::Call(Request::StreamServiceSettings),
            StreamService::Update { service_type, server, key } => Plan::Call(
                Request::SetStreamServiceSettings { service_type, server, key },
            ),
        }
    }
}

impl CommandHandler for StreamServiceHandler {
    open spec fn planned(&self, p: Plan) -> bool {
        p == self.work()
    }

    open spec fn label(&self) -> Seq<char> {
        match self.action {
            StreamService::Get => "Get current stream service settings"@,
            StreamService::Update { .. } => "Set stream service settings"@,
        }
    }

    fn plan(&self) -> (p: Plan) {
        match &self.action {
            StreamService::Get => Plan::Call(Request::StreamServiceSettings),
            StreamService::Update { service_type, server, key } => Plan::Call(
                Request::SetStreamServiceSettings {
                    service_type: service_type.clone(),
                    server: copy_string_option(server),
                    key: copy_string_option(key),
                },
            ),
        }
    }

    fn description(&self) -> (d: &'static str) {
        match &self.action {
            StreamService::Get => "Get current stream service settings",
            StreamService::Update { .. } => "Set stream service settings",
        }
    }
}

/// Handler for record directory commands.
pub struct RecordDirectoryHandler {
    pub action: RecordDirectory,
}

impl RecordDirectoryHandler {
    /// The work this handler does against the remote session.
    pub open spec fn work(&self) -> Plan {
        match self.action {
            RecordDirectory::Get => Plan::Call(Request::RecordDirectory),
            RecordDirectory::Update { directory } => Plan::Call(
                Request::SetRecordDirectory { directory },
            ),
        }
    }
}

impl CommandHandler for RecordDirectoryHandler {
    open spec fn planned(&self, p: Plan) -> bool {
        p == self.work()
    }

    open spec fn label(&self) -> Seq<char> {
        match self.action {
            RecordDirectory::Get => "Get current record directory"@,
            RecordDirectory::Update { .. } => "Set record directory"@,
        }
    }

    fn plan(&self) -> (p: Plan) {
        match &self.action {
            RecordDirectory::Get => Plan::Call(Request::RecordDirectory),
            RecordDirectory::Update { directory } => Plan::Call(
                Request::SetRecordDirectory { directory: directory.clone() },
            ),
        }
    }

    fn description(&self) -> (d: &'static str) {
        match &self.action {
            RecordDirectory::Get => "Get current record directory",
            RecordDirectory::Update { .. } => "Set record directory",
        }
    }
}

} // verus!
