use vstd::prelude::*;
use crate::command::{Commands, Scene};
use crate::handlers::audio::AudioHandler;
use crate::handlers::config::{
    ProfileHandler, RecordDirectoryHandler, StreamServiceHandler, VideoSettingsHandler,
};
use crate::handlers::filters::FilterHandler;
use crate::handlers::general::{HotkeyHandler, HotkeyLister, InfoHandler};
use crate::handlers::inputs::InputCmdHandler;
use crate::handlers::media::MediaInputHandler;
use crate::handlers::recording::RecordingHandler;
use crate::handlers::replay_buffer::ReplayBufferHandler;
use crate::handlers::scene_collections::SceneCollectionHandler;
use crate::handlers::scene_items::SceneItemHandler;
use crate::handlers::scenes::SceneHandler;
use crate::handlers::sources::SourceHandler;
use crate::handlers::streaming::StreamingHandler;
use crate::handlers::ui::{FullscreenProjectorHandler, SourceProjectorHandler};
use crate::handlers::virtual_camera::VirtualCameraHandler;
use crate::handlers::CommandHandler;
use crate::plan::{lemma_toggle_writes_negation, step_of, write_request, Plan, Step};
use crate::request::Reply;

verus! {

/// The handler of one command: exactly one kind per command variant.
pub enum Handler {
    Info(InfoHandler),
    Scene(SceneHandler),
    SceneCollection(SceneCollectionHandler),
    Replay(ReplayBufferHandler),
    VirtualCamera(VirtualCameraHandler),
    Streaming(StreamingHandler),
    Recording(RecordingHandler),
    Source(SourceHandler),
    Audio(AudioHandler),
    Filter(FilterHandler),
    SceneItem(SceneItemHandler),
    Input(InputCmdHandler),
    Profile(ProfileHandler),
    VideoSettings(VideoSettingsHandler),
    StreamService(StreamServiceHandler),
    RecordDirectory(RecordDirectoryHandler),
    HotkeyLister(HotkeyLister),
    Hotkey(HotkeyHandler),
    FullscreenProjector(FullscreenProjectorHandler),
    SourceProjector(SourceProjectorHandler),
    MediaInput(MediaInputHandler),
}

impl CommandHandler for Handler {
    open spec fn planned(&self, p: Plan) -> bool {
        match self {
            Handler::Info(h) => h.planned(p),
            Handler::Scene(h) => h.planned(p),
            Handler::SceneCollection(h) => h.planned(p),
            Handler::Replay(h) => h.planned(p),
            Handler::VirtualCamera(h) => h.planned(p),
            Handler::Streaming(h) => h.planned(p),
            Handler::Recording(h) => h.planned(p),
            Handler::Source(h) => h.planned(p),
            Handler::Audio(h) => h.planned(p),
            Handler::Filter(h) => h.planned(p),
            Handler::SceneItem(h) => h.planned(p),
            Handler::Input(h) => h.planned(p),
            Handler::Profile(h) => h.planned(p),
            Handler::VideoSettings(h) => h.planned(p),
            Handler::StreamService(h) => h.planned(p),
            Handler::RecordDirectory(h) => h.planned(p),
            Handler::HotkeyLister(h) => h.planned(p),
            Handler::Hotkey(h) => h.planned(p),
            Handler::FullscreenProjector(h) => h.planned(p),
            Handler::SourceProjector(h) => h.planned(p),
            Handler::MediaInput(h) => h.planned(p),
        }
    }

    open spec fn label(&self) -> Seq<char> {
        match self {
            Handler::Info(h) => h.label(),
            Handler::Scene(h) => h.label(),
            Handler::SceneCollection(h) => h.label(),
            Handler::Replay(h) => h.label(),
            Handler::VirtualCamera(h) => h.label(),
            Handler::Streaming(h) => h.label(),
            Handler::Recording(h) => h.label(),
            Handler::Source(h) => h.label(),
            Handler::Audio(h) => h.label(),
            Handler::Filter(h) => h.label(),
            Handler::SceneItem(h) => h.label(),
            Handler::Input(h) => h.label(),
            Handler::Profile(h) => h.label(),
            Handler::VideoSettings(h) => h.label(),
            Handler::StreamService(h) => h.label(),
            Handler::RecordDirectory(h) => h.label(),
            Handler::HotkeyLister(h) => h.label(),
            Handler::Hotkey(h) => h.label(),
            Handler::FullscreenProjector(h) => h.label(),
            Handler::SourceProjector(h) => h.label(),
            Handler::MediaInput(h) => h.label(),
        }
    }

    fn plan(&self) -> (p: Plan) {
        match self {
            Handler::Info(h) => h.plan(),
            Handler::Scene(h) => h.plan(),
            Handler::SceneCollection(h) => h.plan(),
            Handler::Replay(h) => h.plan(),
            Handler::VirtualCamera(h) => h.plan(),
            Handler::Streaming(h) => h.plan(),
            Handler::Recording(h) => h.plan(),
            Handler::Source(h) => h.plan(),
            Handler::Audio(h) => h.plan(),
            Handler::Filter(h) => h.plan(),
            Handler::SceneItem(h) => h.plan(),
            Handler::Input(h) => h.plan(),
            Handler::Profile(h) => h.plan(),
            Handler::VideoSettings(h) => h.plan(),
            Handler::StreamService(h) => h.plan(),
            Handler::RecordDirectory(h) => h.plan(),
            Handler::HotkeyLister(h) => h.plan(),
            Handler::Hotkey(h) => h.plan(),
            Handler::FullscreenProjector(h) => h.plan(),
            Handler::SourceProjector(h) => h.plan(),
            Handler::MediaInput(h) => h.plan(),
        }
    }

    fn description(&self) -> (d: &'static str) {
        match self {
            Handler::Info(h) => h.description(),
            Handler::Scene(h) => h.description(),
            Handler::SceneCollection(h) => h.description(),
            Handler::Replay(h) => h.description(),
            Handler::VirtualCamera(h) => h.description(),
            Handler::Streaming(h) => h.description(),
            Handler::Recording(h) => h.description(),
            Handler::Source(h) => h.description(),
            Handler::Audio(h) => h.description(),
            Handler::Filter(h) => h.description(),
            Handler::SceneItem(h) => h.description(),
            Handler::Input(h) => h.description(),
            Handler::Profile(h) => h.description(),
            Handler::VideoSettings(h) => h.description(),
            Handler::StreamService(h) => h.description(),
            Handler::RecordDirectory(h) => h.description(),
            Handler::HotkeyLister(h) => h.description(),
            Handler::Hotkey(h) => h.description(),
            Handler::FullscreenProjector(h) => h.description(),
            Handler::SourceProjector(h) => h.description(),
            Handler::MediaInput(h) => h.description(),
        }
    }
}

/// The handler that each command variant gets.
pub open spec fn handler_for(command: Commands) -> Handler {
    match command {
        Commands::Info => Handler::Info(InfoHandler),
        Commands::Scene(action) => Handler::Scene(SceneHandler { action }),
        Commands::SceneCollection(action) => Handler::SceneCollection(SceneCollectionHandler { action }),
        Commands::Replay(action) => Handler::Replay(ReplayBufferHandler { action }),
        Commands::VirtualCamera(action) => Handler::VirtualCamera(VirtualCameraHandler { action }),
        Commands::Streaming(action) => Handler::Streaming(StreamingHandler { action }),
        Commands::Recording(action) => Handler::Recording(RecordingHandler { action }),
        Commands::SaveScreenshot { source, format, file_path, width, height, compression_quality } => Handler::Source(
            SourceHandler { source, format, file_path, width, height, compression_quality },
        ),
        Commands::Audio { command, device } => Handler::Audio(AudioHandler { command, device }),
        Commands::Filter { command, source, filter } => Handler::Filter(FilterHandler { command, source, filter }),
        Commands::SceneItem(action) => Handler::SceneItem(SceneItemHandler { action }),
        Commands::Input(action) => Handler::Input(InputCmdHandler { action }),
        Commands::Profile(action) => Handler::Profile(ProfileHandler { action }),
        Commands::VideoSettings(action) => Handler::VideoSettings(VideoSettingsHandler { action }),
        Commands::StreamService(action) => Handler::StreamService(StreamServiceHandler { action }),
        Commands::RecordDirectory(action) => Handler::RecordDirectory(RecordDirectoryHandler { action }),
        Commands::ListHotkeys => Handler::HotkeyLister(HotkeyLister),
        Commands::TriggerHotkey { name } => Handler::Hotkey(HotkeyHandler { name }),
        Commands::FullscreenProjector { monitor_index } => Handler::FullscreenProjector(FullscreenProjectorHandler { monitor_index }),
        Commands::SourceProjector { name, monitor_index } => Handler::SourceProjector(SourceProjectorHandler { name, monitor_index }),
        Commands::MediaInput(action) => Handler::MediaInput(MediaInputHandler { action }),
    }
}

/// Maps a command to its handler. The mapping is total, with no fallback:
/// every command variant has exactly one handler kind.
pub fn dispatch(command: Commands) -> (h: Handler)
    ensures
        h == handler_for(command),
{
    match command {
        Commands::Info => Handler::Info(InfoHandler),
        Commands::Scene(action) => Handler::Scene(SceneHandler { action }),
        Commands::SceneCollection(action) => Handler::SceneCollection(SceneCollectionHandler { action }),
        Commands::Replay(action) => Handler::Replay(ReplayBufferHandler { action }),
        Commands::VirtualCamera(action) => Handler::VirtualCamera(VirtualCameraHandler { action }),
        Commands::Streaming(action) => Handler::Streaming(StreamingHandler { action }),
        Commands::Recording(action) => Handler::Recording(RecordingHandler { action }),
        Commands::SaveScreenshot { source, format, file_path, width, height, compression_quality } => Handler::Source(
            SourceHandler { source, format, file_path, width, height, compression_quality },
        ),
        Commands::Audio { command, device } => Handler::Audio(AudioHandler { command, device }),
        Commands::Filter { command, source, filter } => Handler::Filter(FilterHandler { command, source, filter }),
        Commands::SceneItem(action) => Handler::SceneItem(SceneItemHandler { action }),
        Commands::Input(action) => Handler::Input(InputCmdHandler { action }),
        Commands::Profile(action) => Handler::Profile(ProfileHandler { action }),
        Commands::VideoSettings(action) => Handler::VideoSettings(VideoSettingsHandler { action }),
        Commands::StreamService(action) => Handler::StreamService(StreamServiceHandler { action }),
        Commands::RecordDirectory(action) => Handler::RecordDirectory(RecordDirectoryHandler { action }),
        Commands::ListHotkeys => Handler::HotkeyLister(HotkeyLister),
        Commands::TriggerHotkey { name } => Handler::Hotkey(HotkeyHandler { name }),
        Commands::FullscreenProjector { monitor_index } => Handler::FullscreenProjector(FullscreenProjectorHandler { monitor_index }),
        Commands::SourceProjector { name, monitor_index } => Handler::SourceProjector(SourceProjectorHandler { name, monitor_index }),
        Commands::MediaInput(action) => Handler::MediaInput(MediaInputHandler { action }),
    }
}

/// The handlers that flip a boolean attribute of the remote session.
pub open spec fn is_toggle(h: Handler) -> bool {
    match h {
        Handler::Audio(a) => a.command@ == "toggle"@,
        Handler::Filter(f) => f.command@ == "toggle"@,
        Handler::Scene(s) => s.action is StudioModeToggle,
        _ => false,
    }
}

/// A toggle handler, told that the attribute is on, writes it off, and
/// reports success once the write is accepted.
pub proof fn lemma_toggle_handler_turns_off(h: Handler, p: Plan)
    requires
        is_toggle(h),
        h.planned(p),
    ensures
        p matches Plan::Flip(t) && step_of(p, seq![Reply::Flag(true)]) == Step::Send(
            write_request(t, false),
        ) && step_of(p, seq![Reply::Flag(true), Reply::Done]) == Step::Finished(Ok(())),
{
    reveal_strlit("toggle");
    reveal_strlit("mute");
    reveal_strlit("unmute");
    reveal_strlit("enable");
    reveal_strlit("disable");
    match h {
        Handler::Audio(a) => {
            assert("mute"@.len() == 4);
            assert("toggle"@[0] != "unmute"@[0]);
        },
        Handler::Filter(f) => {
            assert("disable"@.len() == 7);
            assert("toggle"@[0] != "enable"@[0]);
        },
        _ => {},
    }
    match p {
        Plan::Flip(t) => lemma_toggle_writes_negation(t, true),
        _ => {},
    }
}

} // verus!
