use obs_cmd::address::resolve_address;
use obs_cmd::command::{Commands, Input, Recording, Replay, Scene, SceneItem, VideoSettings};
use obs_cmd::connection::{after_attempt, AttemptOutcome, ConnectionConfig, RetryDecision};
use obs_cmd::error::{ConnectFailure, ObsCmdError, UrlProblem};
use obs_cmd::handlers::audio::AudioHandler;
use obs_cmd::handlers::filters::FilterHandler;
use obs_cmd::handlers::inputs::InputCmdHandler;
use obs_cmd::handlers::scene_items::SceneItemHandler;
use obs_cmd::handlers::CommandHandler;
use obs_cmd::plan::{next_step, FlagTarget, ItemOp, Plan, Step};
use obs_cmd::registry::dispatch;
use obs_cmd::request::{BlendMode, Reply, Request};
use obs_cmd::target::{resolve_target, ObsWebsocket, WebsocketUrlError};
use obs_cmd::text::parse_blend_mode;

fn address(hint: &str, raw: &str) -> (String, String) {
    let a = resolve_address(hint, raw);
    (a.container, a.leaf)
}

fn pair(c: &str, l: &str) -> (String, String) {
    (c.to_string(), l.to_string())
}

#[test]
fn separator_overrides_the_hint() {
    assert_eq!(address("Group", "Group/Camera"), pair("Group", "Camera"));
    assert_eq!(address("AnythingElse", "Group/Camera"), pair("Group", "Camera"));
}

#[test]
fn hint_is_the_container_without_separator() {
    assert_eq!(address("Scene1", "Camera"), pair("Scene1", "Camera"));
}

#[test]
fn only_the_first_separator_counts() {
    assert_eq!(address("S", "A/B/C"), pair("A", "B/C"));
}

#[test]
fn leading_and_trailing_separators() {
    assert_eq!(address("S", "/Camera"), pair("", "Camera"));
    assert_eq!(address("S", "Group/"), pair("Group", ""));
    assert_eq!(address("S", "/"), pair("", ""));
}

#[test]
fn raw_name_equal_to_hint() {
    assert_eq!(address("Camera", "Camera"), pair("Camera", "Camera"));
    assert_eq!(address("", ""), pair("", ""));
}

fn run(plan: &Plan, replies: &[Reply]) -> Step {
    next_step(plan, &replies.to_vec())
}

#[test]
fn toggle_writes_the_negation_of_true() {
    let handler = AudioHandler {
        command: "toggle".to_string(),
        device: "Mic/Aux".to_string(),
    };
    let plan = handler.plan();
    assert_eq!(
        run(&plan, &[]),
        Step::Send(Request::InputMuted {
            input: "Mic/Aux".to_string()
        })
    );
    assert_eq!(
        run(&plan, &[Reply::Flag(true)]),
        Step::Send(Request::SetInputMuted {
            input: "Mic/Aux".to_string(),
            muted: false
        })
    );
    assert_eq!(
        run(&plan, &[Reply::Flag(true), Reply::Done]),
        Step::Finished(Ok(()))
    );
}

#[test]
fn filter_toggle_writes_the_negation() {
    let handler = FilterHandler {
        command: "toggle".to_string(),
        source: "Camera".to_string(),
        filter: "Blur".to_string(),
    };
    let plan = handler.plan();
    assert_eq!(
        plan,
        Plan::Flip(FlagTarget::Filter {
            source: "Camera".to_string(),
            filter: "Blur".to_string()
        })
    );
    assert_eq!(
        run(&plan, &[Reply::Flag(false)]),
        Step::Send(Request::SetFilterEnabled {
            source: "Camera".to_string(),
            filter: "Blur".to_string(),
            enabled: true
        })
    );
}

#[test]
fn scene_item_toggle_resolves_then_flips() {
    let handler = SceneItemHandler {
        action: SceneItem::Toggle {
            scene: "Main".to_string(),
            source: "Group/Camera".to_string(),
        },
    };
    let plan = handler.plan();
    assert_eq!(
        run(&plan, &[]),
        Step::Send(Request::SceneItemId {
            scene: "Group".to_string(),
            source: "Camera".to_string()
        })
    );
    assert_eq!(
        run(&plan, &[Reply::ItemId(7)]),
        Step::Send(Request::SceneItemEnabled {
            scene: "Group".to_string(),
            item_id: 7
        })
    );
    assert_eq!(
        run(&plan, &[Reply::ItemId(7), Reply::Flag(true)]),
        Step::Send(Request::SetSceneItemEnabled {
            scene: "Group".to_string(),
            item_id: 7,
            enabled: false
        })
    );
    assert_eq!(
        run(&plan, &[Reply::ItemId(7), Reply::Flag(true), Reply::Done]),
        Step::Finished(Ok(()))
    );
}

#[test]
fn missing_item_is_not_found() {
    let handler = SceneItemHandler {
        action: SceneItem::Lock {
            scene: "Main".to_string(),
            source: "Ghost".to_string(),
        },
    };
    let plan = handler.plan();
    assert_eq!(
        run(
            &plan,
            &[Reply::NotFound {
                message: "no such item".to_string()
            }]
        ),
        Step::Finished(Err(ObsCmdError::ItemNotFound {
            container: "Main".to_string(),
            leaf: "Ghost".to_string()
        }))
    );
}

#[test]
fn scene_item_lock_sends_locked_under_the_id() {
    let handler = SceneItemHandler {
        action: SceneItem::Lock {
            scene: "Main".to_string(),
            source: "Camera".to_string(),
        },
    };
    let plan = handler.plan();
    assert_eq!(
        run(&plan, &[Reply::ItemId(3)]),
        Step::Send(Request::SetSceneItemLocked {
            scene: "Main".to_string(),
            item_id: 3,
            locked: true
        })
    );
}

#[test]
fn unsupported_blend_mode_is_refused_without_a_call() {
    let handler = SceneItemHandler {
        action: SceneItem::SetBlendMode {
            scene: "Main".to_string(),
            source: "Camera".to_string(),
            blend_mode: "overlay".to_string(),
        },
    };
    let plan = handler.plan();
    let refused = Step::Finished(Err(ObsCmdError::InvalidBlendMode {
        blend_mode: "overlay".to_string(),
    }));
    assert_eq!(run(&plan, &[]), refused);
    assert_eq!(run(&plan, &[Reply::ItemId(1)]), refused);
}

#[test]
fn blend_mode_names_in_any_case() {
    assert_eq!(parse_blend_mode("SCREEN"), Ok(BlendMode::Screen));
    assert_eq!(parse_blend_mode("Multiply"), Ok(BlendMode::Multiply));
    assert_eq!(parse_blend_mode("darken"), Ok(BlendMode::Darken));
    assert_eq!(parse_blend_mode("normal"), Ok(BlendMode::Normal));
    assert_eq!(parse_blend_mode("additive"), Ok(BlendMode::Additive));
    assert_eq!(parse_blend_mode("Subtract"), Ok(BlendMode::Subtract));
    assert_eq!(parse_blend_mode("LIGHTEN"), Ok(BlendMode::Lighten));
    assert_eq!(
        parse_blend_mode("overlay"),
        Err(ObsCmdError::InvalidBlendMode {
            blend_mode: "overlay".to_string()
        })
    );
}

#[test]
fn blend_mode_set_resolves_then_sets() {
    let handler = SceneItemHandler {
        action: SceneItem::SetBlendMode {
            scene: "Main".to_string(),
            source: "Camera".to_string(),
            blend_mode: "Additive".to_string(),
        },
    };
    let plan = handler.plan();
    assert_eq!(
        plan,
        Plan::OnItem {
            address: resolve_address("Main", "Camera"),
            op: ItemOp::SetBlendMode {
                mode: BlendMode::Additive
            }
        }
    );
    assert_eq!(
        run(&plan, &[Reply::ItemId(4)]),
        Step::Send(Request::SetSceneItemBlendMode {
            scene: "Main".to_string(),
            item_id: 4,
            mode: BlendMode::Additive
        })
    );
}

#[test]
fn scene_switch_end_to_end() {
    let handler = dispatch(Commands::Scene(Scene::Switch {
        scene_name: "Main Scene".to_string(),
    }));
    let plan = handler.plan();
    assert_eq!(
        run(&plan, &[]),
        Step::Send(Request::SetCurrentProgramScene {
            scene: "Main Scene".to_string()
        })
    );
    assert_eq!(run(&plan, &[Reply::Done]), Step::Finished(Ok(())));
    let current = dispatch(Commands::Scene(Scene::Current));
    assert_eq!(handler.description(), "Switch to scene");
    assert_ne!(handler.description(), current.description());
}

#[test]
fn remote_refusal_ends_the_work() {
    let plan = dispatch(Commands::Info).plan();
    assert_eq!(
        run(
            &plan,
            &[Reply::Failed {
                message: "closed".to_string()
            }]
        ),
        Step::Finished(Err(ObsCmdError::ConnectionError {
            message: "closed".to_string()
        }))
    );
}

#[test]
fn invalid_legacy_words_are_refused() {
    let audio = AudioHandler {
        command: "louder".to_string(),
        device: "Mic".to_string(),
    };
    assert_eq!(
        audio.plan(),
        Plan::Reject(ObsCmdError::InvalidAudioCommand {
            command: "louder".to_string()
        })
    );
    let filter = FilterHandler {
        command: "flip".to_string(),
        source: "Cam".to_string(),
        filter: "Blur".to_string(),
    };
    assert_eq!(
        filter.plan(),
        Plan::Reject(ObsCmdError::InvalidFilterCommand {
            command: "flip".to_string()
        })
    );
}

#[test]
fn monitor_type_is_checked() {
    let bad = InputCmdHandler {
        action: Input::AudioMonitorType {
            input_name: "Mic".to_string(),
            get: false,
            set: Some("loud".to_string()),
        },
    };
    assert_eq!(
        bad.plan(),
        Plan::Reject(ObsCmdError::InvalidAudioMonitorType {
            monitor_type: "loud".to_string()
        })
    );
    let good = InputCmdHandler {
        action: Input::AudioMonitorType {
            input_name: "Mic".to_string(),
            get: false,
            set: Some("monitorOnly".to_string()),
        },
    };
    assert_eq!(good.plan(), Plan::Report);
}

#[test]
fn recording_status_active_checks_state() {
    let plan = dispatch(Commands::Recording(Recording::StatusActive)).plan();
    assert_eq!(run(&plan, &[]), Step::Send(Request::RecordStatus));
    let status = |active, paused| Reply::RecordStatus { active, paused };
    assert_eq!(run(&plan, &[status(true, false)]), Step::Finished(Ok(())));
    assert_eq!(
        run(&plan, &[status(false, false)]),
        Step::Finished(Err(ObsCmdError::RecordingNotActive))
    );
    assert_eq!(
        run(&plan, &[status(true, true)]),
        Step::Finished(Err(ObsCmdError::RecordingPaused))
    );
}

#[test]
fn last_replay_must_exist() {
    let plan = dispatch(Commands::Replay(Replay::LastReplay)).plan();
    assert_eq!(
        run(&plan, &[Reply::Text(String::new())]),
        Step::Finished(Err(ObsCmdError::NoLastReplay))
    );
    assert_eq!(
        run(&plan, &[Reply::Text("/tmp/r.mkv".to_string())]),
        Step::Finished(Ok(()))
    );
    assert_eq!(
        run(&plan, &[Reply::Done]),
        Step::Finished(Err(ObsCmdError::UnexpectedReply))
    );
}

#[test]
fn projector_needs_the_monitor() {
    let plan = dispatch(Commands::SourceProjector {
        name: "Camera".to_string(),
        monitor_index: 1,
    })
    .plan();
    assert_eq!(run(&plan, &[]), Step::Send(Request::ListMonitors));
    assert_eq!(
        run(&plan, &[Reply::MonitorCount(1)]),
        Step::Finished(Err(ObsCmdError::MonitorNotAvailable { index: 1 }))
    );
    assert_eq!(
        run(&plan, &[Reply::MonitorCount(2)]),
        Step::Send(Request::OpenSourceProjector {
            source: "Camera".to_string(),
            monitor_index: 1
        })
    );
}

fn simulate(config: &ConnectionConfig, outcomes: &[AttemptOutcome]) -> (u32, u32, Result<u32, ObsCmdError>) {
    let mut sleeps = 0;
    let mut attempt: u32 = 1;
    loop {
        match after_attempt(config, attempt, outcomes[(attempt - 1) as usize].clone()) {
            RetryDecision::Connected { attempts } => return (attempt, sleeps, Ok(attempts)),
            RetryDecision::RetryAfter { delay_secs } => {
                assert_eq!(delay_secs, config.retry_delay_secs);
                sleeps += 1;
                attempt += 1;
            }
            RetryDecision::GiveUp(e) => return (attempt, sleeps, Err(e)),
        }
    }
}

fn refused(n: u32) -> AttemptOutcome {
    AttemptOutcome::Failed(ConnectFailure::Rejected {
        message: format!("refused {}", n),
    })
}

#[test]
fn always_failing_transport_exhausts_attempts() {
    let config = ConnectionConfig {
        timeout_secs: 10,
        max_retries: 4,
        retry_delay_secs: 2,
    };
    let outcomes = [
        refused(1),
        AttemptOutcome::Failed(ConnectFailure::TimedOut { timeout_secs: 10 }),
        refused(3),
        refused(4),
    ];
    let (attempts, sleeps, result) = simulate(&config, &outcomes);
    assert_eq!(attempts, 4);
    assert_eq!(sleeps, 3);
    assert_eq!(
        result,
        Err(ObsCmdError::AllConnectionAttemptsFailed {
            attempts: 4,
            last_failure: ConnectFailure::Rejected {
                message: "refused 4".to_string()
            }
        })
    );
}

#[test]
fn success_on_attempt_k() {
    let config = ConnectionConfig::default();
    assert_eq!(config.max_retries, 3);
    let outcomes = [refused(1), AttemptOutcome::Connected, refused(3)];
    assert_eq!(simulate(&config, &outcomes), (2, 1, Ok(2)));
    let first = [AttemptOutcome::Connected];
    assert_eq!(simulate(&config, &first), (1, 0, Ok(1)));
}

#[test]
fn default_connection_config() {
    let config = ConnectionConfig::default();
    assert_eq!(config.timeout_secs, 10);
    assert_eq!(config.max_retries, 3);
    assert_eq!(config.retry_delay_secs, 2);
}

#[test]
fn websocket_argument_is_read() {
    let t = ObsWebsocket::from_url("obsws://192.168.1.100:4455/password").unwrap();
    assert_eq!(t.hostname, "192.168.1.100");
    assert_eq!(t.port, 4455);
    assert_eq!(t.password, Some("password".to_string()));
    let bare = ObsWebsocket::from_url("obsws://localhost:4455").unwrap();
    assert_eq!(bare.password, None);
}

#[test]
fn websocket_argument_errors() {
    assert_eq!(
        ObsWebsocket::from_url("http://localhost:4455/x"),
        Err(WebsocketUrlError::InvalidFormat)
    );
    assert_eq!(
        ObsWebsocket::from_url("not a url"),
        Err(WebsocketUrlError::InvalidFormat)
    );
    assert_eq!(
        ObsWebsocket::from_url("obsws://localhost/secret"),
        Err(WebsocketUrlError::MissingPort)
    );
    assert_eq!(
        ObsWebsocket::from_url("obsws:/secret"),
        Err(WebsocketUrlError::InvalidHostname)
    );
}

#[test]
fn environment_wins_over_argument() {
    let argument = ObsWebsocket {
        hostname: "cli-host".to_string(),
        port: 1,
        password: None,
    };
    let t = resolve_target(
        Some("obsws://env-host:4456/pw/extra".to_string()),
        Some(argument.clone()),
    )
    .unwrap();
    assert_eq!(t.hostname, "env-host");
    assert_eq!(t.port, 4456);
    assert_eq!(t.password, Some("pw".to_string()));
    assert_eq!(resolve_target(None, Some(argument.clone())), Ok(argument));
}

#[test]
fn default_target_is_local() {
    let t = resolve_target(None, None).unwrap();
    assert_eq!(t.hostname, "localhost");
    assert_eq!(t.port, 4455);
    assert_eq!(t.password, Some("secret".to_string()));
}

#[test]
fn environment_url_errors() {
    assert_eq!(
        resolve_target(Some("::nonsense".to_string()), None),
        Err(ObsCmdError::UrlParseError {
            url: "::nonsense".to_string()
        })
    );
    assert_eq!(
        resolve_target(Some("obsws://host/pw".to_string()), None),
        Err(ObsCmdError::WebSocketUrlParseError {
            problem: UrlProblem::MissingPort
        })
    );
    assert_eq!(
        resolve_target(Some("obsws:pw".to_string()), None),
        Err(ObsCmdError::WebSocketUrlParseError {
            problem: UrlProblem::MissingHostname
        })
    );
    assert_eq!(
        resolve_target(Some("obsws://host:1".to_string()), None),
        Err(ObsCmdError::WebSocketUrlParseError {
            problem: UrlProblem::MissingPassword
        })
    );
}

#[test]
fn video_settings_pairs_need_both_values() {
    let plan = dispatch(Commands::VideoSettings(VideoSettings::Update {
        base_width: Some(1920),
        base_height: Some(1080),
        output_width: Some(1280),
        output_height: None,
        fps_num: Some(60),
        fps_den: Some(1),
    }))
    .plan();
    assert_eq!(
        plan,
        Plan::Call(Request::SetVideoSettings {
            base: Some((1920, 1080)),
            output: None,
            fps: Some((60, 1))
        })
    );
}

#[test]
fn studio_mode_toggle_turns_off() {
    let plan = dispatch(Commands::Scene(Scene::StudioModeToggle)).plan();
    assert_eq!(run(&plan, &[]), Step::Send(Request::StudioModeEnabled));
    assert_eq!(
        run(&plan, &[Reply::Flag(true)]),
        Step::Send(Request::SetStudioModeEnabled { enabled: false })
    );
    assert_eq!(
        run(&plan, &[Reply::Flag(true), Reply::Done]),
        Step::Finished(Ok(()))
    );
}

#[test]
fn toggle_read_refused_sends_nothing_more() {
    let plan = dispatch(Commands::Audio {
        command: "toggle".to_string(),
        device: "Mic".to_string(),
    })
    .plan();
    assert_eq!(
        run(
            &plan,
            &[Reply::NotFound {
                message: "no input".to_string()
            }]
        ),
        Step::Finished(Err(ObsCmdError::ConnectionError {
            message: "no input".to_string()
        }))
    );
}

#[test]
fn input_listing_passes_the_kind() {
    let plan = dispatch(Commands::Input(Input::List {
        kind: Some("ffmpeg_source".to_string()),
    }))
    .plan();
    assert_eq!(
        plan,
        Plan::Call(Request::ListInputs {
            kind: Some("ffmpeg_source".to_string())
        })
    );
    let volume = dispatch(Commands::Input(Input::Volume {
        input_name: "Mic".to_string(),
        get: false,
        set: true,
    }))
    .plan();
    assert_eq!(volume, Plan::Report);
}

#[test]
fn dispatch_gives_each_command_its_handler() {
    let cases: Vec<(Commands, &str)> = vec![
        (Commands::Info, "Get OBS version information"),
        (Commands::ListHotkeys, "Lists All Hotkeys"),
        (Commands::Recording(Recording::TogglePause), "Toggle recording pause"),
        (Commands::Replay(Replay::LastReplay), "Get last replay path"),
        (
            Commands::SceneItem(SceneItem::SetIndex {
                scene: "S".to_string(),
                source: "I".to_string(),
                index: 2,
            }),
            "Set scene item index",
        ),
        (
            Commands::FullscreenProjector { monitor_index: 0 },
            "Open fullscreen projector",
        ),
        (
            Commands::VideoSettings(VideoSettings::Get),
            "Get current video settings",
        ),
    ];
    for (command, label) in cases {
        assert_eq!(dispatch(command).description(), label);
    }
}
