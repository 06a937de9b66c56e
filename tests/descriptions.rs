use obs_cmd::command::{MediaInput, Recording, Scene, SceneCollection, Streaming, VirtualCamera};
use obs_cmd::handlers::audio::AudioHandler;
use obs_cmd::handlers::filters::FilterHandler;
use obs_cmd::handlers::general::{HotkeyHandler, InfoHandler};
use obs_cmd::handlers::media::MediaInputHandler;
use obs_cmd::handlers::recording::RecordingHandler;
use obs_cmd::handlers::scene_collections::SceneCollectionHandler;
use obs_cmd::handlers::scenes::SceneHandler;
use obs_cmd::handlers::sources::SourceHandler;
use obs_cmd::handlers::streaming::StreamingHandler;
use obs_cmd::handlers::ui::{FullscreenProjectorHandler, SourceProjectorHandler};
use obs_cmd::handlers::virtual_camera::VirtualCameraHandler;
use obs_cmd::handlers::CommandHandler;

#[test]
fn test_recording_handler_description() {
    let handler = RecordingHandler {
        action: Recording::Start,
    };
    assert_eq!(handler.description(), "Start recording");
}

#[test]
fn test_streaming_handler_description() {
    let handler = StreamingHandler {
        action: Streaming::Toggle,
    };
    assert_eq!(handler.description(), "Toggle streaming");
}

#[test]
fn test_scene_handler_description() {
    let handler = SceneHandler {
        action: Scene::Current,
    };
    assert_eq!(handler.description(), "Get current scene");
}

#[test]
fn test_scene_create_handler_description() {
    let handler = SceneHandler {
        action: Scene::Create {
            scene_name: "test".to_string(),
        },
    };
    assert_eq!(handler.description(), "Create new scene");
}

#[test]
fn test_scene_transition_set_handler_description() {
    let handler = SceneHandler {
        action: Scene::TransitionSet {
            transition_name: "Fade".to_string(),
        },
    };
    assert_eq!(handler.description(), "Set current transition");
}

#[test]
fn test_scene_studio_mode_enable_handler_description() {
    let handler = SceneHandler {
        action: Scene::StudioModeEnable,
    };
    assert_eq!(handler.description(), "Enable studio mode");
}

#[test]
fn test_scene_preview_set_handler_description() {
    let handler = SceneHandler {
        action: Scene::PreviewSet {
            scene_name: "preview".to_string(),
        },
    };
    assert_eq!(handler.description(), "Set preview scene");
}

#[test]
fn test_media_input_handler_description() {
    let handler = MediaInputHandler {
        action: MediaInput::Play {
            name: "test".to_string(),
        },
    };
    assert_eq!(handler.description(), "Play media input");
}

#[test]
fn test_audio_handler_description() {
    let handler = AudioHandler {
        command: "mute".to_string(),
        device: "Mic/Aux".to_string(),
    };
    assert_eq!(handler.description(), "Mute audio device");
}

#[test]
fn test_filter_handler_description() {
    let handler = FilterHandler {
        command: "toggle".to_string(),
        source: "Camera".to_string(),
        filter: "Color Correction".to_string(),
    };
    assert_eq!(handler.description(), "Toggle filter");
}

#[test]
fn test_scene_collection_handler_description() {
    let handler = SceneCollectionHandler {
        action: SceneCollection::Switch {
            scene_collection_name: "Test Collection".to_string(),
        },
    };
    assert_eq!(handler.description(), "Switch to scene collection");
}

#[test]
fn test_virtual_camera_handler_description() {
    let handler = VirtualCameraHandler {
        action: VirtualCamera::Stop,
    };
    assert_eq!(handler.description(), "Stop virtual camera");
}

#[test]
fn test_info_handler_description() {
    let handler = InfoHandler;
    assert_eq!(handler.description(), "Get OBS version information");
}

#[test]
fn test_hotkey_handler_description() {
    let handler = HotkeyHandler {
        name: "OBSBasic.StartRecording".to_string(),
    };
    assert_eq!(handler.description(), "Trigger hotkey");
}

#[test]
fn test_source_handler_description() {
    let handler = SourceHandler {
        source: "Camera".to_string(),
        format: "png".to_string(),
        file_path: "/tmp/screenshot.png".to_string(),
        width: Some(1920),
        height: Some(1080),
        compression_quality: Some(80),
    };
    assert_eq!(handler.description(), "Save source screenshot");
}

#[test]
fn test_fullscreen_projector_handler_description() {
    let handler = FullscreenProjectorHandler { monitor_index: 1 };
    assert_eq!(handler.description(), "Open fullscreen projector");
}

#[test]
fn test_source_projector_handler_description() {
    let handler = SourceProjectorHandler {
        name: "Camera".to_string(),
        monitor_index: 0,
    };
    assert_eq!(handler.description(), "Open source projector");
}

#[test]
fn audio_description_of_unknown_word_is_generic() {
    let handler = AudioHandler {
        command: "louder".to_string(),
        device: "Mic/Aux".to_string(),
    };
    assert_eq!(handler.description(), "Audio operation");
}
