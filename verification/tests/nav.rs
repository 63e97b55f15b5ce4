use hyprkool::grid::move_within_grid;
use hyprkool::settings::Config;
use hyprkool::state::Command;
use hyprkool::state::KoolError;
use hyprkool::state::State;

fn test_config(activities: &[&str]) -> Config {
    Config {
        activities: activities.iter().map(|a| a.to_string()).collect(),
        ..Config::default()
    }
}

fn work_home() -> State {
    State::new(test_config(&["work", "home"]))
}

#[test]
fn builds_nine_workspaces_per_activity() {
    let state = work_home();
    assert_eq!(state.activities, vec!["work".to_string(), "home".to_string()]);
    assert_eq!(state.workspaces.len(), 2);
    for row in &state.workspaces {
        assert_eq!(row.len(), 9);
    }
    assert_eq!(state.workspaces[0][0], "work:1");
    assert_eq!(state.workspaces[0][8], "work:9");
    assert_eq!(state.workspaces[1][4], "home:5");
}

#[test]
fn empty_activity_list_falls_back_to_default() {
    let state = State::new(test_config(&[]));
    assert_eq!(state.activities, vec!["default".to_string()]);
    assert_eq!(state.workspaces[0][0], "default:1");
}

#[test]
fn generated_names_resolve_to_their_indices() {
    let state = work_home();
    for (a, row) in state.workspaces.iter().enumerate() {
        for (l, name) in row.iter().enumerate() {
            assert_eq!(state.get_indices(name), Some((a, Some(l))));
        }
    }
}

#[test]
fn get_activity_index_prefix_match() {
    let state = work_home();
    assert_eq!(state.get_activity_index("work:5"), Some(0));
    assert_eq!(state.get_activity_index("home:1"), Some(1));
    assert_eq!(state.get_activity_index("elsewhere"), None);
}

#[test]
fn unmanaged_names_do_not_resolve() {
    let state = work_home();
    assert_eq!(state.get_indices("scratch:1"), None);
    // activity matches, workspace does not
    assert_eq!(state.get_indices("work:x"), Some((0, None)));
    assert_eq!(state.get_indices("work:0"), Some((0, None)));
}

#[test]
fn cycle_moves_are_invertible() {
    for idx in 0..9usize {
        for dx in -1..=1i64 {
            for dy in -1..=1i64 {
                let there = move_within_grid(idx, dx, dy, true);
                let back = move_within_grid(there, -dx, -dy, true);
                assert_eq!(back, idx);
            }
        }
    }
}

#[test]
fn clamped_move_left_from_first_column_stays() {
    for idx in [0usize, 3, 6] {
        assert_eq!(move_within_grid(idx, -1, 0, false), idx);
    }
}

#[test]
fn clamped_move_right_from_last_column_stays() {
    for idx in [2usize, 5, 8] {
        assert_eq!(move_within_grid(idx, 1, 0, false), idx);
    }
}

#[test]
fn move_right_from_center_clamped_and_cycled() {
    let state = work_home();
    // "work:5" is index 4 (row 1, col 1); one step right is "work:6"
    assert_eq!(
        state.moved_workspace("work:5", 1, 0, false),
        Ok("work:6".to_string())
    );
    // "work:6" is col 2; cycling right wraps to col 0, "work:4"
    assert_eq!(
        state.moved_workspace("work:6", 1, 0, true),
        Ok("work:4".to_string())
    );
    // clamping instead keeps "work:6"
    assert_eq!(
        state.moved_workspace("work:6", 1, 0, false),
        Ok("work:6".to_string())
    );
}

#[test]
fn moves_up_down_wrap_and_clamp() {
    let state = work_home();
    assert_eq!(
        state.moved_workspace("work:2", 0, -1, true),
        Ok("work:8".to_string())
    );
    assert_eq!(
        state.moved_workspace("work:2", 0, -1, false),
        Ok("work:2".to_string())
    );
    assert_eq!(
        state.moved_workspace("work:2", 0, 1, false),
        Ok("work:5".to_string())
    );
}

#[test]
fn move_from_unmanaged_workspace_fails() {
    let state = work_home();
    assert_eq!(
        state.moved_workspace("scratch", 1, 0, true),
        Err(KoolError::NotInManagedWorkspace)
    );
    assert_eq!(
        state.moved_workspace("work:x", 1, 0, true),
        Err(KoolError::NotInManagedWorkspace)
    );
}

#[test]
fn next_activity_preserves_suffix_and_wraps() {
    let state = work_home();
    let i = state.get_activity_index("work:5");
    let t = state.next_activity_index(i, true, false);
    assert_eq!(state.activity_workspace_name("work:5", t), "home:5");
    let i = state.get_activity_index("home:5");
    let t = state.next_activity_index(i, true, false);
    assert_eq!(state.activity_workspace_name("home:5", t), "work:5");
}

#[test]
fn prev_activity_wraps_backwards() {
    let state = work_home();
    let i = state.get_activity_index("work:3");
    let t = state.next_activity_index(i, true, true);
    assert_eq!(state.activity_workspace_name("work:3", t), "home:3");
}

#[test]
fn activity_step_clamps_at_the_ends() {
    let state = work_home();
    assert_eq!(state.next_activity_index(Some(1), false, false), 1);
    assert_eq!(state.next_activity_index(Some(0), false, false), 1);
    assert_eq!(state.next_activity_index(Some(0), false, true), 0);
    assert_eq!(state.next_activity_index(Some(1), false, true), 0);
    assert_eq!(state.next_activity_index(None, true, false), 0);
}

#[test]
fn activity_switch_from_unmanaged_uses_first_workspace() {
    let state = work_home();
    let t = state.next_activity_index(None, true, false);
    assert_eq!(state.activity_workspace_name("scratch", t), "work:1");
}

#[test]
fn switch_to_activity_appends_suffix() {
    let state = work_home();
    assert_eq!(state.switch_to_activity_name("work:5", "home"), "home:5");
    // unmanaged current workspace: a bare "0" is appended
    assert_eq!(state.switch_to_activity_name("scratch", "home"), "home0");
}

#[test]
fn switch_to_workspace_in_activity_builds_name() {
    let state = work_home();
    assert_eq!(
        state.workspace_in_activity_target("work:5", "7"),
        Ok("work:7".to_string())
    );
    assert_eq!(
        state.workspace_in_activity_target("scratch", "7"),
        Err(KoolError::NotInManagedWorkspace)
    );
}

#[test]
fn switch_to_workspace_reports_what_is_missing() {
    let state = work_home();
    assert_eq!(
        state.switch_to_workspace_target("home:9"),
        Ok("home:9".to_string())
    );
    assert_eq!(
        state.switch_to_workspace_target("scratch:1"),
        Err(KoolError::ActivityNotFound)
    );
    assert_eq!(
        state.switch_to_workspace_target("home:12"),
        Err(KoolError::WorkspaceNotFound)
    );
}

#[test]
fn plan_command_move_right() {
    let state = work_home();
    let plan = state
        .plan_command(
            &Command::MoveRight { cycle: false, move_window: false },
            "work:5",
        )
        .unwrap();
    assert_eq!(plan.workspace, "work:6");
    assert!(!plan.move_window);
    assert_eq!(plan.animation, None);
    let err = state.plan_command(
        &Command::MoveLeft { cycle: true, move_window: false },
        "scratch",
    );
    assert!(err.is_err());
}

#[test]
fn plan_command_activity_cycle() {
    let state = work_home();
    let plan = state
        .plan_command(
            &Command::NextActivity { cycle: true, move_window: true },
            "work:5",
        )
        .unwrap();
    assert_eq!(plan.workspace, "home:5");
    assert!(plan.move_window);
    let plan = state
        .plan_command(
            &Command::PrevActivity { cycle: true, move_window: false },
            "home:5",
        )
        .unwrap();
    assert_eq!(plan.workspace, "work:5");
}

#[test]
fn plan_command_switches() {
    let state = work_home();
    let plan = state
        .plan_command(
            &Command::SwitchToWorkspace { name: "home:3".to_string(), move_window: false },
            "",
        )
        .unwrap();
    assert_eq!(plan.workspace, "home:3");
    let plan = state
        .plan_command(
            &Command::SwitchToWorkspaceInActivity { name: "2".to_string(), move_window: false },
            "home:7",
        )
        .unwrap();
    assert_eq!(plan.workspace, "home:2");
    let plan = state
        .plan_command(
            &Command::SwitchToActivity { name: "home".to_string(), move_window: false },
            "work:8",
        )
        .unwrap();
    assert_eq!(plan.workspace, "home:8");
}
