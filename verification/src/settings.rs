//! Engine configuration: the activity list and the numeric and animation
//! tuning parameters the navigation engine and the mouse loop consume.

use vstd::prelude::*;

verus! {

/// Tuning parameters for the engine.
///
/// Absent fields in the configuration file fall back to the values of
/// `Default::default()`: a single `"default"` activity, animations enabled
/// with a 6-tick duration and no curve, 300 ms polling, a 0-pixel edge
/// band and a 2-pixel reposition margin.
pub struct Config {
    pub activities: Vec<String>,
    pub enable_animations: bool,
    pub animation_duration: u64,
    pub workspace_switch_animation_curve: Option<String>,
    pub workspace_horizontal_switch_animation_style: Option<String>,
    pub workspace_vertical_switch_animation_style: Option<String>,
    pub acitvity_switch_animation_curve: Option<String>,
    pub acitvity_switch_animation_style: Option<String>,
    /// mouse polling rate in ms
    pub polling_rate: u64,
    /// number of pixels to consider as edge
    pub edge_width: u64,
    /// push cursor inside margin when it loops
    pub edge_margin: u64,
}

impl Default for Config {
    fn default() -> (r: Self)
        ensures
            r.activities@.len() == 1,
            r.activities@[0]@ == "default"@,
            r.enable_animations == true,
            r.animation_duration == 6,
            r.workspace_switch_animation_curve is None,
            r.workspace_horizontal_switch_animation_style is None,
            r.workspace_vertical_switch_animation_style is None,
            r.acitvity_switch_animation_curve is None,
            r.acitvity_switch_animation_style is None,
            r.polling_rate == 300,
            r.edge_width == 0,
            r.edge_margin == 2,
    {
        let mut activities: Vec<String> = Vec::new();
        activities.push(String::from_str("default"));
        Config {
            activities,
            enable_animations: true,
            animation_duration: 6,
            workspace_switch_animation_curve: None,
            workspace_horizontal_switch_animation_style: None,
            workspace_vertical_switch_animation_style: None,
            acitvity_switch_animation_curve: None,
            acitvity_switch_animation_style: None,
            polling_rate: 300,
            edge_width: 0,
            edge_margin: 2,
        }
    }
}

} // verus!
