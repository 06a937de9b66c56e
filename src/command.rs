use vstd::prelude::*;

verus! {

#[derive(Clone, Copy, Debug, PartialEq, Eq)]
pub enum Replay {
    Start,
    Stop,
    Toggle,
    Save,
    Status,
    LastReplay,
}

#[derive(Clone, Copy, Debug, PartialEq, Eq)]
pub enum VirtualCamera {
    Start,
    Stop,
    Toggle,
}

#[derive(Clone, Copy, Debug, PartialEq, Eq)]
pub enum Streaming {
    Start,
    Stop,
    Status,
    Toggle,
}

#[derive(Clone, Copy, Debug, PartialEq, Eq)]
pub enum Recording {
    Start,
    Stop,
    Toggle,
    Status,
    StatusActive,
    Pause,
    Resume,
    TogglePause,
}

#[derive(Clone, Debug, PartialEq, Eq)]
pub enum Scene {
    Current,
    Switch { scene_name: String },
    List,
    Create { scene_name: String },
    Remove { scene_name: String },
    Rename { scene_name: String, new_name: String },
    TransitionList,
    TransitionCurrent,
    TransitionSet { transition_name: String },
    TransitionDuration { duration_ms: u64 },
    TransitionTrigger,
    StudioModeStatus,
    StudioModeEnable,
    StudioModeDisable,
    StudioModeToggle,
    StudioModeTransition,
    PreviewCurrent,
    PreviewSet { scene_name: String },
}

#[derive(Clone, Debug, PartialEq, Eq)]
pub enum SceneCollection {
    Current,
    List,
    Create { scene_collection_name: String },
    Switch { scene_collection_name: String },
}

/// Operations on the items of a scene. A `source` written `"Group/Name"`
/// names the item `Name` inside the group `Group`.
#[derive(Clone, Debug, PartialEq, Eq)]
pub enum SceneItem {
    List { scene: String },
    Create { scene: String, source: String, enabled: Option<bool> },
    Remove { scene: String, source: String },
    Duplicate { scene: String, source: String },
    Enable { scene: String, source: String },
    Disable { scene: String, source: String },
    Toggle { scene: String, source: String },
    Lock { scene: String, source: String },
    Unlock { scene: String, source: String },
    GetTransform { scene: String, source: String },
    /// The new position, scale, rotation and crop come with the caller's
    /// copy of the command.
    SetTransform { scene: String, source: String },
    GetIndex { scene: String, source: String },
    SetIndex { scene: String, source: String, index: u32 },
    GetBlendMode { scene: String, source: String },
    SetBlendMode { scene: String, source: String, blend_mode: String },
}

#[derive(Clone, Copy, Debug, PartialEq, Eq)]
pub enum MuteAction {
    Mute,
    Unmute,
    Toggle,
    Status,
}

/// Input management. Where a numeric level is set (volume, balance), `set`
/// says that a level was given; its range is checked where it is read.
#[derive(Clone, Debug, PartialEq, Eq)]
pub enum Input {
    List { kind: Option<String> },
    ListKinds,
    Create {
        input_name: String,
        input_kind: String,
        scene: Option<String>,
        settings: Option<String>,
    },
    Remove { input_name: String },
    Rename { input_name: String, new_name: String },
    Settings { input_name: String, get: bool, set: Option<String> },
    Volume { input_name: String, get: bool, set: bool },
    Mute { input_name: String, action: MuteAction },
    AudioBalance { input_name: String, get: bool, set: bool },
    AudioSyncOffset { input_name: String, get: bool, set: Option<i64> },
    AudioMonitorType { input_name: String, get: bool, set: Option<String> },
    AudioTracks { input_name: String, get: bool, set: Option<String> },
    DefaultSettings { input_kind: String },
    Specials,
}

#[derive(Clone, Debug, PartialEq, Eq)]
pub enum Profile {
    Current,
    List,
    Create { profile_name: String },
    Remove { profile_name: String },
    Switch { profile_name: String },
}

#[derive(Clone, Copy, Debug, PartialEq, Eq)]
pub enum VideoSettings {
    Get,
    Update {
        base_width: Option<u32>,
        base_height: Option<u32>,
        output_width: Option<u32>,
        output_height: Option<u32>,
        fps_num: Option<u32>,
        fps_den: Option<u32>,
    },
}

#[derive(Clone, Debug, PartialEq, Eq)]
pub enum StreamService {
    Get,
    Update { service_type: String, server: Option<String>, key: Option<String> },
}

#[derive(Clone, Debug, PartialEq, Eq)]
pub enum RecordDirectory {
    Get,
    Update { directory: String },
}

#[derive(Clone, Debug, PartialEq, Eq)]
pub enum MediaInput {
    /// Moves the playback cursor to `cursor_secs` seconds from the start.
    SetCursor { name: String, cursor_secs: i64 },
    Play { name: String },
    Pause { name: String },
    Stop { name: String },
    Restart { name: String },
}

/// Every operation the client offers, as parsed from its arguments.
#[derive(Clone, Debug, PartialEq, Eq)]
pub enum Commands {
    Info,
    Scene(Scene),
    SceneCollection(SceneCollection),
    Replay(Replay),
    VirtualCamera(VirtualCamera),
    Streaming(Streaming),
    Recording(Recording),
    SaveScreenshot {
        source: String,
        format: String,
        file_path: String,
        width: Option<u32>,
        height: Option<u32>,
        compression_quality: Option<i32>,
    },
    /// A legacy group whose sub-command is a word: mute, unmute, toggle, status.
    Audio { command: String, device: String },
    /// A legacy group whose sub-command is a word: enable, disable, toggle.
    Filter { command: String, source: String, filter: String },
    SceneItem(SceneItem),
    Input(Input),
    Profile(Profile),
    VideoSettings(VideoSettings),
    StreamService(StreamService),
    RecordDirectory(RecordDirectory),
    ListHotkeys,
    TriggerHotkey { name: String },
    FullscreenProjector { monitor_index: u8 },
    SourceProjector { name: String, monitor_index: u8 },
    MediaInput(MediaInput),
}

} // verus!
