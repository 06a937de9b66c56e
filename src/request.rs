//! The vocabulary between the library and the remote session: the requests
//! it can ask for and the replies it reads, all as plain values.

use vstd::prelude::*;

verus! {

/// An action that a media input can be asked to perform.
#[derive(Clone, Copy, Debug, PartialEq, Eq)]
pub enum MediaAction {
    Play,
    Pause,
    Stop,
    Restart,
}

/// How a scene item is composited over what lies below it.
#[derive(Clone, Copy, Debug, PartialEq, Eq)]
pub enum BlendMode {
    Normal,
    Additive,
    Subtract,
    Screen,
    Multiply,
    Lighten,
    Darken,
}

/// One call against the remote session, with every argument as a plain value.
#[derive(Clone, Debug, PartialEq, Eq)]
pub enum Request {
    Version,
    ListHotkeys,
    TriggerHotkey { name: String },
    CurrentProgramScene,
    SetCurrentProgramScene { scene: String },
    ListScenes,
    CreateScene { scene: String },
    RemoveScene { scene: String },
    RenameScene { scene: String, new_name: String },
    CurrentPreviewScene,
    SetCurrentPreviewScene { scene: String },
    ListTransitions,
    CurrentTransition,
    SetCurrentTransition { transition: String },
    SetTransitionDuration { duration_ms: u64 },
    TriggerTransition,
    StudioModeEnabled,
    SetStudioModeEnabled { enabled: bool },
    ListMonitors,
    OpenVideoMixProjector { monitor_index: u8 },
    OpenSourceProjector { source: String, monitor_index: u8 },
    CurrentSceneCollection,
    ListSceneCollections,
    CreateSceneCollection { name: String },
    SetCurrentSceneCollection { name: String },
    CurrentProfile,
    ListProfiles,
    CreateProfile { name: String },
    RemoveProfile { name: String },
    SetCurrentProfile { name: String },
    VideoSettings,
    /// Each pair is (width, height) or (numerator, denominator); `None` keeps
    /// the current value.
    SetVideoSettings {
        base: Option<(u32, u32)>,
        output: Option<(u32, u32)>,
        fps: Option<(u32, u32)>,
    },
    StreamServiceSettings,
    SetStreamServiceSettings { service_type: String, server: Option<String>, key: Option<String> },
    RecordDirectory,
    SetRecordDirectory { directory: String },
    StartRecord,
    StopRecord,
    ToggleRecord,
    RecordStatus,
    PauseRecord,
    ResumeRecord,
    ToggleRecordPause,
    StartStream,
    StopStream,
    StreamStatus,
    ToggleStream,
    StartVirtualCam,
    StopVirtualCam,
    ToggleVirtualCam,
    StartReplayBuffer,
    StopReplayBuffer,
    ToggleReplayBuffer,
    SaveReplayBuffer,
    ReplayBufferStatus,
    LastReplay,
    ListInputs { kind: Option<String> },
    ListInputKinds,
    InputMuted { input: String },
    SetInputMuted { input: String, muted: bool },
    SetMediaCursor { input: String, cursor_secs: i64 },
    TriggerMediaAction { input: String, action: MediaAction },
    FilterEnabled { source: String, filter: String },
    SetFilterEnabled { source: String, filter: String, enabled: bool },
    ListSceneItems { scene: String },
    CreateSceneItem { scene: String, source: String, enabled: Option<bool> },
    /// The identifier of the first item named `source` inside `scene`.
    SceneItemId { scene: String, source: String },
    RemoveSceneItem { scene: String, item_id: i64 },
    DuplicateSceneItem { scene: String, item_id: i64 },
    SceneItemEnabled { scene: String, item_id: i64 },
    SetSceneItemEnabled { scene: String, item_id: i64, enabled: bool },
    SetSceneItemLocked { scene: String, item_id: i64, locked: bool },
    SceneItemTransform { scene: String, item_id: i64 },
    /// The new transform values travel beside the request, with the command
    /// that asked for them.
    SetSceneItemTransform { scene: String, item_id: i64 },
    SceneItemIndex { scene: String, item_id: i64 },
    SetSceneItemIndex { scene: String, item_id: i64, index: u32 },
    SceneItemBlendMode { scene: String, item_id: i64 },
    SetSceneItemBlendMode { scene: String, item_id: i64, mode: BlendMode },
    SaveScreenshot {
        source: String,
        format: String,
        file_path: String,
        width: Option<u32>,
        height: Option<u32>,
        compression_quality: Option<i32>,
    },
}

/// What the remote session answered to one request, reduced to what the
/// decisions read.
#[derive(Clone, Debug, PartialEq, Eq)]
pub enum Reply {
    /// The request succeeded; nothing in the answer is needed further.
    Done,
    /// The request succeeded and answered a boolean state.
    Flag(bool),
    /// The request succeeded and answered a scene item identifier.
    ItemId(i64),
    /// The request succeeded and answered how many monitors there are.
    MonitorCount(u64),
    /// The request succeeded and answered the recording state.
    RecordStatus { active: bool, paused: bool },
    /// The request succeeded and answered a text, such as a file path.
    Text(String),
    /// The session reported that the resource asked for does not exist.
    NotFound { message: String },
    /// The session refused the request, or the transport failed.
    Failed { message: String },
}

pub fn copy_string_option(o: &Option<String>) -> (r: Option<String>)
    ensures
        r == *o,
{
    match o {
        Some(s) => Some(s.clone()),
        None => None,
    }
}

impl Request {
    /// A value equal to this request.
    pub fn duplicate(&self) -> (r: Request)
        ensures
            r == *self,
    {
        match self {
            Request::Version => Request::Version,
            Request::ListHotkeys => Request::ListHotkeys,
            Request::TriggerHotkey { name } => Request::TriggerHotkey { name: name.clone() },
            Request::CurrentProgramScene => Request::CurrentProgramScene,
            Request::SetCurrentProgramScene { scene } => Request::SetCurrentProgramScene {
                scene: scene.clone(),
            },
            Request::ListScenes => Request::ListScenes,
            Request::CreateScene { scene } => Request::CreateScene { scene: scene.clone() },
            Request::RemoveScene { scene } => Request::RemoveScene { scene: scene.clone() },
            Request::RenameScene { scene, new_name } => Request::RenameScene {
                scene: scene.clone(),
                new_name: new_name.clone(),
            },
            Request::CurrentPreviewScene => Request::CurrentPreviewScene,
            Request::SetCurrentPreviewScene { scene } => Request::SetCurrentPreviewScene {
                scene: scene.clone(),
            },
            Request::ListTransitions => Request::ListTransitions,
            Request::CurrentTransition => Request::CurrentTransition,
            Request::SetCurrentTransition { transition } => Request::SetCurrentTransition {
                transition: transition.clone(),
            },
            Request::SetTransitionDuration { duration_ms } => Request::SetTransitionDuration {
                duration_ms: *duration_ms,
            },
            Request::TriggerTransition => Request::TriggerTransition,
            Request::StudioModeEnabled => Request::StudioModeEnabled,
            Request::SetStudioModeEnabled { enabled } => Request::SetStudioModeEnabled {
                enabled: *enabled,
            },
            Request::ListMonitors => Request::ListMonitors,
            Request::OpenVideoMixProjector { monitor_index } => Request::OpenVideoMixProjector {
                monitor_index: *monitor_index,
            },
            Request::OpenSourceProjector { source, monitor_index } => Request::OpenSourceProjector {
                source: source.clone(),
                monitor_index: *monitor_index,
            },
            Request::CurrentSceneCollection => Request::CurrentSceneCollection,
            Request::ListSceneCollections => Request::ListSceneCollections,
            Request::CreateSceneCollection { name } => Request::CreateSceneCollection {
                name: name.clone(),
            },
            Request::SetCurrentSceneCollection { name } => Request::SetCurrentSceneCollection {
                name: name.clone(),
            },
            Request::CurrentProfile => Request::CurrentProfile,
            Request::ListProfiles => Request::ListProfiles,
            Request::CreateProfile { name } => Request::CreateProfile { name: name.clone() },
            Request::RemoveProfile { name } => Request::RemoveProfile { name: name.clone() },
            Request::SetCurrentProfile { name } => Request::SetCurrentProfile { name: name.clone() },
            Request::VideoSettings => Request::VideoSettings,
            Request::SetVideoSettings { base, output, fps } => Request::SetVideoSettings {
                base: *base,
                output: *output,
                fps: *fps,
            },
            Request::StreamServiceSettings => Request::StreamServiceSettings,
            Request::SetStreamServiceSettings { service_type, server, key } =>
                Request::SetStreamServiceSettings {
                service_type: service_type.clone(),
                server: copy_string_option(server),
                key: copy_string_option(key),
            },
            Request::RecordDirectory => Request::RecordDirectory,
            Request::SetRecordDirectory { directory } => Request::SetRecordDirectory {
                directory: directory.clone(),
            },
            Request::StartRecord => Request::StartRecord,
            Request::StopRecord => Request::StopRecord,
            Request::ToggleRecord => Request::ToggleRecord,
            Request::RecordStatus => Request::RecordStatus,
            Request::PauseRecord => Request::PauseRecord,
            Request::ResumeRecord => Request::ResumeRecord,
            Request::ToggleRecordPause => Request::ToggleRecordPause,
            Request::StartStream => Request::StartStream,
            Request::StopStream => Request::StopStream,
            Request::StreamStatus => Request::StreamStatus,
            Request::ToggleStream => Request::ToggleStream,
            Request::StartVirtualCam => Request::StartVirtualCam,
            Request::StopVirtualCam => Request::StopVirtualCam,
            Request::ToggleVirtualCam => Request::ToggleVirtualCam,
            Request::StartReplayBuffer => Request::StartReplayBuffer,
            Request::StopReplayBuffer => Request::StopReplayBuffer,
            Request::ToggleReplayBuffer => Request::ToggleReplayBuffer,
            Request::SaveReplayBuffer => Request::SaveReplayBuffer,
            Request::ReplayBufferStatus => Request::ReplayBufferStatus,
            Request::LastReplay => Request::LastReplay,
            Request::ListInputs { kind } => Request::ListInputs { kind: copy_string_option(kind) },
            Request::ListInputKinds => Request::ListInputKinds,
            Request::InputMuted { input } => Request::InputMuted { input: input.clone() },
            Request::SetInputMuted { input, muted } => Request::SetInputMuted {
                input: input.clone(),
                muted: *muted,
            },
            Request::SetMediaCursor { input, cursor_secs } => Request::SetMediaCursor {
                input: input.clone(),
                cursor_secs: *cursor_secs,
            },
            Request::TriggerMediaAction { input, action } => Request::TriggerMediaAction {
                input: input.clone(),
                action: *action,
            },
            Request::FilterEnabled { source, filter } => Request::FilterEnabled {
                source: source.clone(),
                filter: filter.clone(),
            },
            Request::SetFilterEnabled { source, filter, enabled } => Request::SetFilterEnabled {
                source: source.clone(),
                filter: filter.clone(),
                enabled: *enabled,
            },
            Request::ListSceneItems { scene } => Request::ListSceneItems { scene: scene.clone() },
            Request::CreateSceneItem { scene, source, enabled } => Request::CreateSceneItem {
                scene: scene.clone(),
                source: source.clone(),
                enabled: *enabled,
            },
            Request::SceneItemId { scene, source } => Request::SceneItemId {
                scene: scene.clone(),
                source: source.clone(),
            },
            Request::RemoveSceneItem { scene, item_id } => Request::RemoveSceneItem {
                scene: scene.clone(),
                item_id: *item_id,
            },
            Request::DuplicateSceneItem { scene, item_id } => Request::DuplicateSceneItem {
                scene: scene.clone(),
                item_id: *item_id,
            },
            Request::SceneItemEnabled { scene, item_id } => Request::SceneItemEnabled {
                scene: scene.clone(),
                item_id: *item_id,
            },
            Request::SetSceneItemEnabled { scene, item_id, enabled } =>
                Request::SetSceneItemEnabled {
                scene: scene.clone(),
                item_id: *item_id,
                enabled: *enabled,
            },
            Request::SetSceneItemLocked { scene, item_id, locked } => Request::SetSceneItemLocked {
                scene: scene.clone(),
                item_id: *item_id,
                locked: *locked,
            },
            Request::SceneItemTransform { scene, item_id } => Request::SceneItemTransform {
                scene: scene.clone(),
                item_id: *item_id,
            },
            Request::SetSceneItemTransform { scene, item_id } => Request::SetSceneItemTransform {
                scene: scene.clone(),
                item_id: *item_id,
            },
            Request::SceneItemIndex { scene, item_id } => Request::SceneItemIndex {
                scene: scene.clone(),
                item_id: *item_id,
            },
            Request::SetSceneItemIndex { scene, item_id, index } => Request::SetSceneItemIndex {
                scene: scene.clone(),
                item_id: *item_id,
                index: *index,
            },
            Request::SceneItemBlendMode { scene, item_id } => Request::SceneItemBlendMode {
                scene: scene.clone(),
                item_id: *item_id,
            },
            Request::SetSceneItemBlendMode { scene, item_id, mode } =>
                Request::SetSceneItemBlendMode {
                scene: scene.clone(),
                item_id: *item_id,
                mode: *mode,
            },
            Request::SaveScreenshot {
                source,
                format,
                file_path,
                width,
                height,
                compression_quality,
            } => Request::SaveScreenshot {
                source: source.clone(),
                format: format.clone(),
                file_path: file_path.clone(),
                width: *width,
                height: *height,
                compression_quality: *compression_quality,
            },
        }
    }
}

} // verus!
