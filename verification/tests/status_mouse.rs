use hyprkool::mouse::scan_axis;
use hyprkool::mouse::MouseAction;
use hyprkool::settings::Config;
use hyprkool::state::State;

fn state_with(config: Config) -> State {
    State::new(config)
}

fn work_home() -> State {
    state_with(Config {
        activities: vec!["work".to_string(), "home".to_string()],
        ..Config::default()
    })
}

#[test]
fn status_repr_blanks_exactly_the_active_slot() {
    let state = work_home();
    // workspace index 4: row 1, col 1 of the 3x3 block is blank
    let repr = state.get_activity_status_repr("work:5").unwrap();
    assert_eq!(repr, "███ ███ ███\n███     ███\n███ ███ ███");
    let rows: Vec<&str> = repr.split('\n').collect();
    assert_eq!(rows.len(), 3);
    for (r, row) in rows.iter().enumerate() {
        // each row: three 3-character cells separated by single spaces
        let chars: Vec<char> = row.chars().collect();
        assert_eq!(chars.len(), 11);
        for c in 0..3usize {
            let cell: String = chars[4 * c..4 * c + 3].iter().collect();
            if r == 1 && c == 1 {
                assert_eq!(cell, "   ");
            } else {
                assert_eq!(cell, "███");
            }
        }
    }
}

#[test]
fn status_repr_corners() {
    let state = work_home();
    assert_eq!(
        state.get_activity_status_repr("home:1").unwrap(),
        "    ███ ███\n███ ███ ███\n███ ███ ███"
    );
    assert_eq!(
        state.get_activity_status_repr("home:9").unwrap(),
        "███ ███ ███\n███ ███ ███\n███ ███    "
    );
}

#[test]
fn status_repr_of_unmanaged_workspace_is_none() {
    let state = work_home();
    assert_eq!(state.get_activity_status_repr("scratch"), None);
    assert_eq!(state.get_activity_status_repr("work:0"), None);
}

#[test]
fn left_edge_triggers_and_repositions() {
    // monitor width 1920, edge band 5: x = 2 is at the left edge and the
    // cursor is pushed to the far side, inset by the margin
    let (dx, new_x) = scan_axis(2, 1920, 5, 2);
    assert_eq!(dx, 2);
    assert_eq!(new_x, 1918);
}

#[test]
fn right_edge_triggers_and_repositions() {
    let (dx, new_x) = scan_axis(1916, 1920, 5, 2);
    assert_eq!(dx, 1);
    assert_eq!(new_x, 2);
}

#[test]
fn center_is_no_edge() {
    let (dx, new_x) = scan_axis(960, 1920, 5, 2);
    assert_eq!(dx, 0);
    assert_eq!(new_x, 960);
}

#[test]
fn mouse_tick_idle_away_from_edges() {
    let state = work_home();
    let action = state.mouse_tick("work:5", 960, 540, 1920, 1080, 5, 2);
    assert!(matches!(action, MouseAction::Idle));
}

#[test]
fn mouse_tick_left_edge_wraps_and_repositions() {
    let state = work_home();
    // "work:5" is index 4 (row 1, col 1); a left-edge trigger wraps the
    // column one slot leftwards, to col 0: "work:4"
    let action = state.mouse_tick("work:5", 2, 540, 1920, 1080, 5, 2);
    match action {
        MouseAction::Switch { workspace, horizontal, cursor_x, cursor_y } => {
            assert_eq!(workspace, "work:4");
            assert!(horizontal);
            assert_eq!(cursor_x, 1918);
            assert_eq!(cursor_y, 540);
        }
        _ => panic!("expected a switch"),
    }
}

#[test]
fn mouse_tick_bottom_edge_wraps_down() {
    let state = work_home();
    // "work:8" is index 7 (row 2, col 1); wrapping down lands on row 0
    let action = state.mouse_tick("work:8", 960, 1079, 1920, 1080, 5, 2);
    match action {
        MouseAction::Switch { workspace, horizontal, cursor_x, cursor_y } => {
            assert_eq!(workspace, "work:2");
            assert!(!horizontal);
            assert_eq!(cursor_x, 960);
            assert_eq!(cursor_y, 2);
        }
        _ => panic!("expected a switch"),
    }
}

#[test]
fn mouse_tick_unknown_workspace_reports() {
    let state = work_home();
    let action = state.mouse_tick("scratch", 2, 540, 1920, 1080, 5, 2);
    assert!(matches!(action, MouseAction::UnknownWorkspace));
}

#[test]
fn animation_args_follow_configuration() {
    let mut config = Config::default();
    config.activities = vec!["work".to_string()];
    config.workspace_switch_animation_curve = Some("easeOut".to_string());
    config.workspace_horizontal_switch_animation_style = Some("slidefade".to_string());
    config.acitvity_switch_animation_curve = Some("easeIn".to_string());
    let state = state_with(config);
    assert_eq!(
        state.animation_arg_horizontal(),
        Some("workspaces,1,6,easeOut,slidefade".to_string())
    );
    // no vertical style configured: the style slot stays empty
    assert_eq!(
        state.animation_arg_vertical(),
        Some("workspaces,1,6,easeOut,".to_string())
    );
    assert_eq!(
        state.animation_arg_activity(),
        Some("workspaces,1,6,easeIn,".to_string())
    );
}

#[test]
fn animation_args_absent_without_a_curve() {
    let state = work_home();
    assert_eq!(state.animation_arg_horizontal(), None);
    assert_eq!(state.animation_arg_vertical(), None);
    assert_eq!(state.animation_arg_activity(), None);
}

#[test]
fn animation_arg_disabled_and_long_duration() {
    let mut config = Config::default();
    config.enable_animations = false;
    config.animation_duration = 12345;
    config.workspace_switch_animation_curve = Some("c".to_string());
    let state = state_with(config);
    assert_eq!(
        state.animation_arg_vertical(),
        Some("workspaces,0,12345,c,".to_string())
    );
}

#[test]
fn animation_arg_zero_duration() {
    let mut config = Config::default();
    config.animation_duration = 0;
    config.workspace_switch_animation_curve = Some("linear".to_string());
    let state = state_with(config);
    assert_eq!(
        state.animation_arg_horizontal(),
        Some("workspaces,1,0,linear,".to_string())
    );
}

#[test]
fn default_daemon_config_values() {
    let config = hyprkool::config::Config::default();
    assert_eq!(config.activities, vec!["default".to_string()]);
    assert_eq!(config.workspaces, (2, 2));
    assert!(config.named_focii.is_empty());
    assert!(config.daemon.fallback_commands);
    assert!(config.daemon.remember_activity_focus);
    assert!(config.daemon.mouse.switch_workspace_on_edge);
    assert_eq!(config.daemon.mouse.polling_rate, 300);
    assert_eq!(config.daemon.mouse.edge_width, 0);
    assert_eq!(config.daemon.mouse.edge_margin, 2);
    assert!(matches!(
        config.multi_monitor_strategy,
        hyprkool::config::MultiMonitorStrategy::SharedWorkspacesUnsyncActivities
    ));
}

#[test]
fn default_config_values() {
    let config = Config::default();
    assert_eq!(config.activities, vec!["default".to_string()]);
    assert!(config.enable_animations);
    assert_eq!(config.animation_duration, 6);
    assert_eq!(config.polling_rate, 300);
    assert_eq!(config.edge_width, 0);
    assert_eq!(config.edge_margin, 2);
    assert_eq!(config.workspace_switch_animation_curve, None);
}
