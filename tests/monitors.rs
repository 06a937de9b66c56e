use obs_cmd::error::ObsCmdError;
use obs_cmd::handlers::ui::validate_monitor_index;

fn monitor(index: u32, x: i32) -> obws::responses::ui::Monitor {
    obws::responses::ui::Monitor {
        index,
        name: format!("Monitor {}", index),
        position: obws::responses::ui::MonitorPosition { x, y: 0 },
        size: obws::responses::ui::MonitorSize {
            width: 1920,
            height: 1080,
        },
    }
}

#[test]
fn test_validate_monitor_index_valid() {
    let monitors = vec![monitor(0, 0), monitor(1, 1920)];

    let result = validate_monitor_index(&monitors, 1);
    assert!(result.is_ok());
}

#[test]
fn test_validate_monitor_index_invalid() {
    let monitors = vec![monitor(0, 0)];

    let result = validate_monitor_index(&monitors, 2);
    assert!(result.is_err());
}

#[test]
fn monitor_index_equal_to_count_is_not_available() {
    let monitors = vec![monitor(0, 0)];
    assert_eq!(
        validate_monitor_index(&monitors, 1),
        Err(ObsCmdError::MonitorNotAvailable { index: 1 })
    );
}

#[test]
fn no_monitor_is_available_in_an_empty_list() {
    let monitors: Vec<obws::responses::ui::Monitor> = Vec::new();
    assert_eq!(
        validate_monitor_index(&monitors, 0),
        Err(ObsCmdError::MonitorNotAvailable { index: 0 })
    );
}
