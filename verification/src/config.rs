//! Daemon configuration surface: activity list, grid dimensions, multi
//! monitor strategy and mouse-loop tuning.
//!
//! The navigation arithmetic itself hard-codes a 3x3 grid per activity;
//! the `workspaces` dimension field of this surface is carried but not
//! consumed by the engine.

use std::collections::HashMap;
use vstd::prelude::*;

verus! {

/// Daemon-side switches.
pub struct DaemonConfig {
    pub fallback_commands: bool,
    /// remember what workspace was last focused on an activity
    pub remember_activity_focus: bool,
    pub mouse: MouseConfig,
}

impl Default for DaemonConfig {
    fn default() -> (r: Self)
        ensures
            r.fallback_commands == true,
            r.remember_activity_focus == true,
            r.mouse.switch_workspace_on_edge == true,
            r.mouse.polling_rate == 300,
            r.mouse.edge_width == 0,
            r.mouse.edge_margin == 2,
    {
        DaemonConfig {
            fallback_commands: true,
            remember_activity_focus: true,
            mouse: MouseConfig::default(),
        }
    }
}

/// Mouse-loop tuning.
pub struct MouseConfig {
    pub switch_workspace_on_edge: bool,
    /// mouse polling rate in ms
    pub polling_rate: u64,
    /// number of pixels to consider as edge
    pub edge_width: u64,
    /// push cursor inside margin when it loops
    pub edge_margin: u64,
}

impl Default for MouseConfig {
    fn default() -> (r: Self)
        ensures
            r.switch_workspace_on_edge == true,
            r.polling_rate == 300,
            r.edge_width == 0,
            r.edge_margin == 2,
    {
        MouseConfig {
            switch_workspace_on_edge: true,
            polling_rate: 300,
            edge_width: 0,
            edge_margin: 2,
        }
    }
}

/// How several monitors share the workspace grid.
pub enum MultiMonitorStrategy {
    SeparateWorkspaces,
    SharedWorkspacesSyncActivities,
    SharedWorkspacesUnsyncActivities,
}

/// The full daemon configuration.
pub struct Config {
    pub activities: Vec<String>,
    /// number of workspaces in x and y dimensions
    pub workspaces: (u32, u32),
    pub multi_monitor_strategy: MultiMonitorStrategy,
    pub named_focii: HashMap<String, String>,
    pub daemon: DaemonConfig,
}

impl Default for Config {
    fn default() -> (r: Self)
        ensures
            r.activities@.len() == 1,
            r.activities@[0]@ == "default"@,
            r.workspaces == ((2u32, 2u32)),
            r.multi_monitor_strategy is SharedWorkspacesUnsyncActivities,
            r.named_focii@ == Map::<String, String>::empty(),
            r.daemon.fallback_commands == true,
            r.daemon.remember_activity_focus == true,
    {
        let mut activities: Vec<String> = Vec::new();
        activities.push(String::from_str("default"));
        Config {
            activities,
            workspaces: (2, 2),
            multi_monitor_strategy: MultiMonitorStrategy::SharedWorkspacesUnsyncActivities,
            named_focii: HashMap::new(),
            daemon: DaemonConfig::default(),
        }
    }
}

} // verus!
