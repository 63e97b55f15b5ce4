//! The grid model and the navigation engine.
//!
//! A `State` pairs the ordered activity list with the nine workspace names
//! of each activity and the engine configuration. It is built once at
//! startup and read-only afterwards; every operation is a pure function of
//! the state plus the caller's view of the compositor (the name of the
//! currently active workspace).

use vstd::prelude::*;

use crate::grid::grid_move;
use crate::grid::move_within_grid;
use crate::settings::Config;
use crate::text::decimal_of;
use crate::text::digit_char;
use crate::text::digit_str;
use crate::text::u64_to_string;
use crate::text::is_prefix_of;
use crate::text::str_eq;
use crate::text::str_starts_with;
use crate::text::str_suffix;

verus! {

/// The canonical name of workspace `l` (zero-based) of an activity:
/// the activity name, a colon, and the digit `l + 1`.
pub open spec fn ws_name(activity: Seq<char>, l: int) -> Seq<char> {
    activity + ":"@ + seq![digit_char(l + 1)]
}

/// Why a navigation request could not be carried out.
#[derive(Clone, Copy, Debug, PartialEq, Eq, Structural)]
pub enum KoolError {
    /// The currently active workspace belongs to no configured activity
    /// grid slot.
    NotInManagedWorkspace,
    /// A workspace name named an activity that is not configured.
    ActivityNotFound,
    /// The activity exists but the named workspace is not one of its nine.
    WorkspaceNotFound,
}

/// A navigation request, as the command line hands it in.
#[derive(Debug)]
pub enum Command {
    MouseLoop,
    PrintActivityStatus,
    MoveRight { cycle: bool, move_window: bool },
    MoveLeft { cycle: bool, move_window: bool },
    MoveUp { cycle: bool, move_window: bool },
    MoveDown { cycle: bool, move_window: bool },
    NextActivity { cycle: bool, move_window: bool },
    PrevActivity { cycle: bool, move_window: bool },
    SwitchToActivity { name: String, move_window: bool },
    SwitchToWorkspaceInActivity { name: String, move_window: bool },
    SwitchToWorkspace { name: String, move_window: bool },
}

/// What carrying out a one-shot command takes: an optional animation
/// keyword argument to issue first, the workspace to switch to, and
/// whether the focused window moves along.
pub struct Plan {
    pub animation: Option<String>,
    pub workspace: String,
    pub move_window: bool,
}

/// The immutable grid model: activities, their workspace names, and the
/// engine configuration.
pub struct State {
    pub activities: Vec<String>,
    pub workspaces: Vec<Vec<String>>,
    pub config: Config,
}

impl State {
    /// The activity names as character sequences.
    pub open spec fn acts(&self) -> Seq<Seq<char>> {
        self.activities@.map_values(|s: String| s@)
    }

    /// Well-formedness: at least one activity, one row of exactly nine
    /// workspace names per activity, each name generated by `ws_name`.
    pub open spec fn wf(&self) -> bool {
        &&& self.activities@.len() >= 1
        &&& self.workspaces@.len() == self.activities@.len()
        &&& forall|a: int|
            0 <= a < self.workspaces@.len() ==> (#[trigger] self.workspaces@[a])@.len() == 9
        &&& forall|a: int, l: int|
            0 <= a < self.workspaces@.len() && 0 <= l < 9 ==> (#[trigger] self.workspaces@[a]@[l])@
                == ws_name(self.activities@[a]@, l)
    }

    /// Build the grid from the configured activity list; an empty list is
    /// replaced by the single activity `"default"`.
    pub fn new(config: Config) -> (r: State)
        ensures
            r.wf(),
            r.config == config,
            config.activities@.len() == 0 ==> r.acts() == seq!["default"@],
            config.activities@.len() > 0 ==> r.acts() == config.activities@.map_values(
                |s: String| s@,
            ),
    {
        let mut activities: Vec<String> = Vec::new();
        let mut i: usize = 0;
        while i < config.activities.len()
            invariant
                i <= config.activities@.len(),
                activities@.len() == i,
                forall|k: int| 0 <= k < i ==> (#[trigger] activities@[k])@ == config.activities@[k]@,
            decreases config.activities@.len() - i,
        {
            activities.push(config.activities[i].clone());
            i += 1;
        }
        if activities.len() == 0 {
            activities.push(String::from_str("default"));
        }
        let mut workspaces: Vec<Vec<String>> = Vec::new();
        let mut a: usize = 0;
        while a < activities.len()
            invariant
                a <= activities@.len(),
                workspaces@.len() == a,
                forall|x: int| 0 <= x < a ==> (#[trigger] workspaces@[x])@.len() == 9,
                forall|x: int, l: int|
                    0 <= x < a && 0 <= l < 9 ==> (#[trigger] workspaces@[x]@[l])@ == ws_name(
                        activities@[x]@,
                        l,
                    ),
            decreases activities@.len() - a,
        {
            let mut row: Vec<String> = Vec::new();
            let mut id: u64 = 1;
            while id <= 9
                invariant
                    1 <= id <= 10,
                    a < activities@.len(),
                    row@.len() == id - 1,
                    forall|l: int|
                        0 <= l < id - 1 ==> (#[trigger] row@[l])@ == ws_name(activities@[a as int]@, l),
                decreases 10 - id,
            {
                let mut name = activities[a].clone();
                name.append(":");
                name.append(digit_str(id));
                proof {
                    assert(name@ == ws_name(activities@[a as int]@, id - 1));
                }
                row.push(name);
                id += 1;
            }
            workspaces.push(row);
            a += 1;
        }
        proof {
            if config.activities@.len() == 0 {
                assert(activities@.map_values(|s: String| s@) =~= seq!["default"@]);
            } else {
                assert(activities@.map_values(|s: String| s@) =~= config.activities@.map_values(
                    |s: String| s@,
                ));
            }
        }
        State { activities, workspaces, config }
    }

    /// The index of the first activity whose name is a prefix of `name`,
    /// if any. The match is textual; earlier activities win ties.
    pub fn get_activity_index(&self, name: &str) -> (r: Option<usize>)
        requires
            self.wf(),
        ensures
            match r {
                Some(i) => {
                    &&& i < self.acts().len()
                    &&& is_prefix_of(self.acts()[i as int], name@)
                    &&& forall|j: int| 0 <= j < i ==> !is_prefix_of(#[trigger] self.acts()[j], name@)
                },
                None => forall|j: int|
                    0 <= j < self.acts().len() ==> !is_prefix_of(#[trigger] self.acts()[j], name@),
            },
    {
        let mut i: usize = 0;
        while i < self.activities.len()
            invariant
                self.wf(),
                i <= self.acts().len(),
                forall|j: int| 0 <= j < i ==> !is_prefix_of(#[trigger] self.acts()[j], name@),
            decreases self.acts().len() - i,
        {
            if str_starts_with(name, self.activities[i].as_str()) {
                return Some(i);
            }
            i += 1;
        }
        None
    }

    /// Resolve a workspace name to `(activity index, workspace index)`;
    /// the workspace component is `None` when the name matches an
    /// activity prefix but is not one of its nine generated names.
    pub fn get_indices(&self, name: &str) -> (r: Option<(usize, Option<usize>)>)
        requires
            self.wf(),
        ensures
            match r {
                Some((a, w)) => {
                    &&& a < self.acts().len()
                    &&& is_prefix_of(self.acts()[a as int], name@)
                    &&& forall|j: int| 0 <= j < a ==> !is_prefix_of(#[trigger] self.acts()[j], name@)
                    &&& match w {
                        Some(l) => l < 9 && name@ == ws_name(self.acts()[a as int], l as int),
                        None => forall|l: int|
                            0 <= l < 9 ==> name@ != ws_name(self.acts()[a as int], l),
                    }
                },
                None => forall|j: int|
                    0 <= j < self.acts().len() ==> !is_prefix_of(#[trigger] self.acts()[j], name@),
            },
    {
        let a = match self.get_activity_index(name) {
            Some(a) => a,
            None => {
                return None;
            },
        };
        let row = &self.workspaces[a];
        let mut l: usize = 0;
        while l < row.len()
            invariant
                self.wf(),
                a < self.acts().len(),
                is_prefix_of(self.acts()[a as int], name@),
                forall|j: int| 0 <= j < a ==> !is_prefix_of(#[trigger] self.acts()[j], name@),
                row == self.workspaces@[a as int],
                forall|k: int| 0 <= k < l ==> name@ != ws_name(self.acts()[a as int], k),
            decreases row@.len() - l,
        {
            if str_eq(row[l].as_str(), name) {
                proof {
                    assert(self.acts()[a as int] == self.activities@[a as int]@);
                    assert(row@[l as int]@ == ws_name(self.acts()[a as int], l as int));
                }
                return Some((a, Some(l)));
            }
            l += 1;
        }
        Some((a, None))
    }

    /// `a` is the index of the first activity whose name prefixes `name`.
    pub open spec fn activity_match(&self, name: Seq<char>, a: int) -> bool {
        &&& 0 <= a < self.acts().len()
        &&& is_prefix_of(self.acts()[a], name)
        &&& forall|j: int| 0 <= j < a ==> !is_prefix_of(#[trigger] self.acts()[j], name)
    }

    /// `name` is the generated name of slot `l` of activity `a`, and `a`
    /// is the first activity whose name prefixes it.
    pub open spec fn resolves_to(&self, name: Seq<char>, a: int, l: int) -> bool {
        &&& self.activity_match(name, a)
        &&& 0 <= l < 9
        &&& name == ws_name(self.acts()[a], l)
    }

    /// Compute the workspace reached from the current one by `(x, y)`.
    ///
    /// Fails with `NotInManagedWorkspace` exactly when `current` does not
    /// resolve to a grid slot; the arithmetic itself cannot fail.
    pub fn moved_workspace(&self, current: &str, x: i64, y: i64, cycle: bool) -> (r: Result<
        String,
        KoolError,
    >)
        requires
            self.wf(),
            -3 <= x <= 3,
            -3 <= y <= 3,
        ensures
            (r is Ok) <==> exists|a: int, l: int| self.resolves_to(current@, a, l),
            forall|a: int, l: int|
                #[trigger] self.resolves_to(current@, a, l) ==> (r matches Ok(w) && w@ == ws_name(
                    self.acts()[a],
                    grid_move(l, x as int, y as int, cycle),
                )),
            r is Err ==> r == Err::<String, KoolError>(KoolError::NotInManagedWorkspace),
    {
        let (a, l) = match self.get_indices(current) {
            Some((a, Some(l))) => (a, l),
            Some((a, None)) => {
                proof {
                    lemma_no_exact_match(self, current@, a as int);
                }
                return Err(KoolError::NotInManagedWorkspace);
            },
            None => {
                return Err(KoolError::NotInManagedWorkspace);
            },
        };
        let w = move_within_grid(l, x, y, cycle);
        let r = self.workspaces[a][w].clone();
        proof {
            assert(self.resolves_to(current@, a as int, l as int));
            assert forall|a2: int, l2: int| #[trigger]
                self.resolves_to(current@, a2, l2) implies r@ == ws_name(
                self.acts()[a2],
                grid_move(l2, x as int, y as int, cycle),
            ) by {
                lemma_resolves_unique(self, current@, a as int, l as int, a2, l2);
            }
        }
        Ok(r)
    }

    /// The exact workspace a `SwitchToWorkspace` command names.
    ///
    /// `ActivityNotFound` when no activity name prefixes `name`;
    /// `WorkspaceNotFound` when one does but `name` is not one of that
    /// activity's nine workspaces.
    pub fn switch_to_workspace_target(&self, name: &str) -> (r: Result<String, KoolError>)
        requires
            self.wf(),
        ensures
            (r is Ok) <==> exists|a: int, l: int| self.resolves_to(name@, a, l),
            r matches Ok(w) ==> w@ == name@,
            (r == Err::<String, KoolError>(KoolError::ActivityNotFound)) <==> (forall|j: int|
                0 <= j < self.acts().len() ==> !is_prefix_of(#[trigger] self.acts()[j], name@)),
            r is Err ==> (r == Err::<String, KoolError>(KoolError::ActivityNotFound) || r
                == Err::<String, KoolError>(KoolError::WorkspaceNotFound)),
    {
        match self.get_indices(name) {
            Some((a, Some(l))) => {
                let r = self.workspaces[a][l].clone();
                proof {
                    assert(self.resolves_to(name@, a as int, l as int));
                }
                Ok(r)
            },
            Some((a, None)) => {
                proof {
                    lemma_no_exact_match(self, name@, a as int);
                }
                Err(KoolError::WorkspaceNotFound)
            },
            None => Err(KoolError::ActivityNotFound),
        }
    }

    /// The workspace a `SwitchToWorkspaceInActivity` command names: the
    /// current activity's name, a colon, and the given local name.
    pub fn workspace_in_activity_target(&self, current: &str, name: &str) -> (r: Result<
        String,
        KoolError,
    >)
        requires
            self.wf(),
        ensures
            (r is Ok) <==> exists|a: int| self.activity_match(current@, a),
            forall|a: int|
                #[trigger] self.activity_match(current@, a) ==> (r matches Ok(w) && w@
                    == self.acts()[a] + ":"@ + name@),
            r is Err ==> r == Err::<String, KoolError>(KoolError::NotInManagedWorkspace),
    {
        let a = match self.get_activity_index(current) {
            Some(a) => a,
            None => {
                return Err(KoolError::NotInManagedWorkspace);
            },
        };
        let mut w = self.activities[a].clone();
        w.append(":");
        w.append(name);
        proof {
            assert(self.activity_match(current@, a as int));
            assert forall|a2: int| #[trigger]
                self.activity_match(current@, a2) implies a2 == a as int by {
                lemma_activity_match_unique(self, current@, a as int, a2);
            }
        }
        Ok(w)
    }

    /// The workspace a `SwitchToActivity` command names: the requested
    /// activity name plus the current workspace's local suffix, or plus
    /// `"0"` when the current workspace belongs to no activity.
    pub fn switch_to_activity_name(&self, current: &str, name: &str) -> (r: String)
        requires
            self.wf(),
        ensures
            forall|a: int|
                #[trigger] self.activity_match(current@, a) ==> r@ == name@ + current@.skip(
                    self.acts()[a].len() as int,
                ),
            !(exists|a: int| self.activity_match(current@, a)) ==> r@ == name@ + "0"@,
    {
        let mut r = String::from_str(name);
        match self.get_activity_index(current) {
            Some(a) => {
                let n = self.activities[a].as_str().unicode_len();
                let suffix = str_suffix(current, n);
                r.append(suffix.as_str());
                proof {
                    assert(self.activity_match(current@, a as int));
                    assert forall|a2: int| #[trigger]
                        self.activity_match(current@, a2) implies a2 == a as int by {
                        lemma_activity_match_unique(self, current@, a as int, a2);
                    }
                }
            },
            None => {
                r.append("0");
            },
        }
        r
    }
}

/// The activity index reached from `i` by one step forward or backward,
/// wrapping (`cycle == true`) or clamping (`cycle == false`) at the ends
/// of the activity list.
pub open spec fn step_activity(len: int, i: int, cycle: bool, backwards: bool) -> int {
    if backwards {
        if cycle {
            (i - 1) % len
        } else if i == 0 {
            0
        } else {
            i - 1
        }
    } else {
        if cycle {
            (i + 1) % len
        } else if i + 1 < len {
            i + 1
        } else {
            len - 1
        }
    }
}

/// The destination of a next/previous activity command: one step from the
/// current activity, or the first activity when none is current.
pub open spec fn next_activity_spec(
    len: int,
    current: Option<usize>,
    cycle: bool,
    backwards: bool,
) -> int {
    match current {
        None => 0,
        Some(i) => step_activity(len, i as int, cycle, backwards),
    }
}

impl State {
    /// Advance or retreat by one activity; wrap or clamp at the ends of
    /// the activity list. With no current activity the first one is used.
    pub fn next_activity_index(&self, current: Option<usize>, cycle: bool, backwards: bool) -> (r:
        usize)
        requires
            self.wf(),
            current matches Some(i) ==> i < self.activities@.len(),
        ensures
            r < self.acts().len(),
            r == next_activity_spec(self.acts().len() as int, current, cycle, backwards),
    {
        let len = self.activities.len();
        proof {
            assert(self.acts().len() == self.activities@.len());
            if let Some(i) = current {
                let l = len as int;
                vstd::arithmetic::div_mod::lemma_mod_add_multiples_vanish(i as int - 1, l);
                vstd::arithmetic::div_mod::lemma_mod_self_0(l);
                if i as int - 1 >= 0 {
                    vstd::arithmetic::div_mod::lemma_small_mod((i - 1) as nat, len as nat);
                }
                if i as int + 1 < l {
                    vstd::arithmetic::div_mod::lemma_small_mod((i + 1) as nat, len as nat);
                }
                vstd::arithmetic::div_mod::lemma_small_mod((l - 1) as nat, len as nat);
            }
        }
        match current {
            None => 0,
            Some(i) => {
                if backwards {
                    if cycle {
                        if i == 0 {
                            len - 1
                        } else {
                            i - 1
                        }
                    } else {
                        if i == 0 {
                            0
                        } else {
                            i - 1
                        }
                    }
                } else {
                    if cycle {
                        if i + 1 == len {
                            0
                        } else {
                            i + 1
                        }
                    } else {
                        if i + 1 < len {
                            i + 1
                        } else {
                            len - 1
                        }
                    }
                }
            },
        }
    }

    /// The workspace to land on when switching to activity `target`: the
    /// current workspace's local suffix reused against the new activity
    /// name, or the new activity's first workspace when the current
    /// workspace belongs to no activity.
    pub fn activity_workspace_name(&self, current: &str, target: usize) -> (r: String)
        requires
            self.wf(),
            target < self.activities@.len(),
        ensures
            forall|a: int|
                #[trigger] self.activity_match(current@, a) ==> r@ == self.acts()[target as int]
                    + current@.skip(self.acts()[a].len() as int),
            !(exists|a: int| self.activity_match(current@, a)) ==> r@ == ws_name(
                self.acts()[target as int],
                0,
            ),
    {
        match self.get_activity_index(current) {
            Some(a) => {
                let n = self.activities[a].as_str().unicode_len();
                let suffix = str_suffix(current, n);
                let mut r = self.activities[target].clone();
                r.append(suffix.as_str());
                proof {
                    assert(self.activity_match(current@, a as int));
                    assert forall|a2: int| #[trigger]
                        self.activity_match(current@, a2) implies a2 == a as int by {
                        lemma_activity_match_unique(self, current@, a as int, a2);
                    }
                }
                r
            },
            None => self.workspaces[target][0].clone(),
        }
    }
}

/// One cell of the status block: three blanks for the active slot,
/// three full blocks for every other.
pub open spec fn status_cell(i: int, w: int) -> Seq<char> {
    if i == w {
        "   "@
    } else {
        "███"@
    }
}

/// What stands before cell `i`: nothing before the first, a newline at
/// each row start, a space otherwise.
pub open spec fn status_sep(i: int) -> Seq<char> {
    if i == 0 {
        Seq::empty()
    } else if i % 3 == 0 {
        "\n"@
    } else {
        " "@
    }
}

/// The status block over the first `n` cells, with slot `w` active.
pub open spec fn status_upto(w: int, n: int) -> Seq<char>
    decreases n,
{
    if n <= 0 {
        Seq::empty()
    } else {
        status_upto(w, n - 1) + status_sep(n - 1) + status_cell(n - 1, w)
    }
}

/// The full 3-row, 3-column status block with slot `w` active.
pub open spec fn status_repr(w: int) -> Seq<char> {
    status_upto(w, 9)
}

/// The command-line argument of an animation keyword call: the animation
/// name, the on/off flag, the duration in ticks, the curve and the style,
/// comma-separated.
pub open spec fn animation_arg(
    enable: bool,
    duration: u64,
    curve: Seq<char>,
    style: Seq<char>,
) -> Seq<char> {
    "workspaces,"@ + (if enable {
        "1"@
    } else {
        "0"@
    }) + ","@ + decimal_of(duration as nat) + ","@ + curve + ","@ + style
}

/// The characters of an optional string; empty when absent.
pub open spec fn opt_str_view(o: Option<String>) -> Seq<char> {
    match o {
        Some(s) => s@,
        None => Seq::empty(),
    }
}

impl State {
    /// The three-by-three ASCII-art block for the activity of
    /// `workspace_name`, its own slot blank; `None` when the name is not
    /// a managed workspace.
    pub fn get_activity_status_repr(&self, workspace_name: &str) -> (r: Option<String>)
        requires
            self.wf(),
        ensures
            (r is Some) <==> exists|a: int, l: int| self.resolves_to(workspace_name@, a, l),
            forall|a: int, l: int|
                #[trigger] self.resolves_to(workspace_name@, a, l) ==> (r matches Some(s) && s@
                    == status_repr(l)),
    {
        let (a, wl) = match self.get_indices(workspace_name) {
            Some((a, Some(l))) => {
                proof {
                    assert(self.resolves_to(workspace_name@, a as int, l as int));
                }
                (a, l)
            },
            Some((a, None)) => {
                proof {
                    lemma_no_exact_match(self, workspace_name@, a as int);
                }
                return None;
            },
            None => {
                return None;
            },
        };
        let mut out = String::new();
        let mut i: usize = 0;
        while i < 9
            invariant
                self.wf(),
                a < self.acts().len(),
                wl < 9,
                self.resolves_to(workspace_name@, a as int, wl as int),
                i <= 9,
                out@ == status_upto(wl as int, i as int),
            decreases 9 - i,
        {
            if i == 0 {
            } else if i % 3 == 0 {
                out.append("\n");
            } else {
                out.append(" ");
            }
            if i == wl {
                out.append("   ");
            } else {
                out.append("███");
            }
            proof {
                assert(out@ =~= status_upto(wl as int, i as int + 1));
            }
            i += 1;
        }
        proof {
            assert forall|a2: int, l2: int| #[trigger]
                self.resolves_to(workspace_name@, a2, l2) implies l2 == wl as int by {
                lemma_resolves_unique(self, workspace_name@, a2, l2, a as int, wl as int);
            }
        }
        Some(out)
    }

    /// The keyword argument for a horizontal workspace switch, or `None`
    /// when no workspace switch curve is configured.
    pub fn animation_arg_horizontal(&self) -> (r: Option<String>)
        ensures
            self.workspace_anim_ok(r, true),
    {
        match &self.config.workspace_switch_animation_curve {
            Some(c) => Some(
                build_animation_arg(
                    self.config.enable_animations,
                    self.config.animation_duration,
                    c.as_str(),
                    &self.config.workspace_horizontal_switch_animation_style,
                ),
            ),
            None => None,
        }
    }

    /// The keyword argument for a vertical workspace switch, or `None`
    /// when no workspace switch curve is configured.
    pub fn animation_arg_vertical(&self) -> (r: Option<String>)
        ensures
            self.workspace_anim_ok(r, false),
    {
        match &self.config.workspace_switch_animation_curve {
            Some(c) => Some(
                build_animation_arg(
                    self.config.enable_animations,
                    self.config.animation_duration,
                    c.as_str(),
                    &self.config.workspace_vertical_switch_animation_style,
                ),
            ),
            None => None,
        }
    }

    /// The keyword argument for an activity switch, or `None` when no
    /// activity switch curve is configured.
    pub fn animation_arg_activity(&self) -> (r: Option<String>)
        ensures
            self.activity_anim_ok(r),
    {
        match &self.config.acitvity_switch_animation_curve {
            Some(c) => Some(
                build_animation_arg(
                    self.config.enable_animations,
                    self.config.animation_duration,
                    c.as_str(),
                    &self.config.acitvity_switch_animation_style,
                ),
            ),
            None => None,
        }
    }

    /// `o` is the animation argument owed before a workspace switch along
    /// the given axis: absent exactly when no curve is configured.
    pub open spec fn workspace_anim_ok(&self, o: Option<String>, horizontal: bool) -> bool {
        match (o, self.config.workspace_switch_animation_curve) {
            (Some(s), Some(c)) => s@ == animation_arg(
                self.config.enable_animations,
                self.config.animation_duration,
                c@,
                opt_str_view(
                    if horizontal {
                        self.config.workspace_horizontal_switch_animation_style
                    } else {
                        self.config.workspace_vertical_switch_animation_style
                    },
                ),
            ),
            (None, None) => true,
            _ => false,
        }
    }

    /// `o` is the animation argument owed before an activity switch:
    /// absent exactly when no curve is configured.
    pub open spec fn activity_anim_ok(&self, o: Option<String>) -> bool {
        match (o, self.config.acitvity_switch_animation_curve) {
            (Some(s), Some(c)) => s@ == animation_arg(
                self.config.enable_animations,
                self.config.animation_duration,
                c@,
                opt_str_view(self.config.acitvity_switch_animation_style),
            ),
            (None, None) => true,
            _ => false,
        }
    }
}

impl State {
    /// `r` is the right outcome of a directional move from `current`:
    /// resolution failure is reported, and otherwise the plan switches to
    /// the grid slot `(dx, dy)` away with the right animation first.
    pub open spec fn move_plan_ok(
        &self,
        r: Result<Plan, KoolError>,
        current: Seq<char>,
        dx: int,
        dy: int,
        cycle: bool,
        move_window: bool,
        horizontal: bool,
    ) -> bool {
        &&& ((r is Ok) <==> exists|a: int, l: int| self.resolves_to(current, a, l))
        &&& forall|a: int, l: int|
            #[trigger] self.resolves_to(current, a, l) ==> (r matches Ok(p) && p.workspace@
                == ws_name(self.acts()[a], grid_move(l, dx, dy, cycle)) && p.move_window
                == move_window && self.workspace_anim_ok(p.animation, horizontal))
        &&& r is Err ==> r == Err::<Plan, KoolError>(KoolError::NotInManagedWorkspace)
    }

    /// `r` is the right outcome of a next/previous activity command:
    /// always a plan, stepping one activity and reusing the local suffix,
    /// or landing on the first workspace when nothing is current.
    pub open spec fn activity_plan_ok(
        &self,
        r: Result<Plan, KoolError>,
        current: Seq<char>,
        cycle: bool,
        backwards: bool,
        move_window: bool,
    ) -> bool {
        let len = self.acts().len() as int;
        &&& r is Ok
        &&& r matches Ok(p) ==> {
            &&& p.move_window == move_window
            &&& self.activity_anim_ok(p.animation)
            &&& forall|a: int|
                #[trigger] self.activity_match(current, a) ==> p.workspace@ == self.acts()[
                    step_activity(len, a, cycle, backwards)
                ] + current.skip(self.acts()[a].len() as int)
            &&& !(exists|a: int| self.activity_match(current, a)) ==> p.workspace@ == ws_name(
                self.acts()[0],
                0,
            )
        }
    }

    /// `r` is the right outcome of a direct activity switch: always a
    /// plan whose workspace is the requested name plus the current local
    /// suffix, or plus `"0"`.
    pub open spec fn switch_activity_plan_ok(
        &self,
        r: Result<Plan, KoolError>,
        current: Seq<char>,
        name: Seq<char>,
        move_window: bool,
    ) -> bool {
        &&& r is Ok
        &&& r matches Ok(p) ==> {
            &&& p.move_window == move_window
            &&& self.activity_anim_ok(p.animation)
            &&& forall|a: int|
                #[trigger] self.activity_match(current, a) ==> p.workspace@ == name
                    + current.skip(self.acts()[a].len() as int)
            &&& !(exists|a: int| self.activity_match(current, a)) ==> p.workspace@ == name + "0"@
        }
    }

    /// `r` is the right outcome of a switch to a workspace inside the
    /// current activity.
    pub open spec fn workspace_in_activity_plan_ok(
        &self,
        r: Result<Plan, KoolError>,
        current: Seq<char>,
        name: Seq<char>,
        move_window: bool,
    ) -> bool {
        &&& ((r is Ok) <==> exists|a: int| self.activity_match(current, a))
        &&& forall|a: int|
            #[trigger] self.activity_match(current, a) ==> (r matches Ok(p) && p.workspace@
                == self.acts()[a] + ":"@ + name && p.move_window == move_window
                && self.activity_anim_ok(p.animation))
        &&& r is Err ==> r == Err::<Plan, KoolError>(KoolError::NotInManagedWorkspace)
    }

    /// `r` is the right outcome of a switch to an exactly named
    /// workspace, with each failure attributed.
    pub open spec fn switch_workspace_plan_ok(
        &self,
        r: Result<Plan, KoolError>,
        name: Seq<char>,
        move_window: bool,
    ) -> bool {
        &&& ((r is Ok) <==> exists|a: int, l: int| self.resolves_to(name, a, l))
        &&& r matches Ok(p) ==> (p.workspace@ == name && p.move_window == move_window
            && self.activity_anim_ok(p.animation))
        &&& ((r == Err::<Plan, KoolError>(KoolError::ActivityNotFound)) <==> (forall|j: int|
            0 <= j < self.acts().len() ==> !is_prefix_of(#[trigger] self.acts()[j], name)))
        &&& r is Err ==> (r == Err::<Plan, KoolError>(KoolError::ActivityNotFound) || r
            == Err::<Plan, KoolError>(KoolError::WorkspaceNotFound))
    }

    /// Decide what a one-shot command does, given the name of the
    /// currently active workspace. The two long-running modes (the mouse
    /// loop and the status printer) are driven elsewhere.
    pub fn plan_command(&self, cmd: &Command, current: &str) -> (r: Result<Plan, KoolError>)
        requires
            self.wf(),
            !(cmd is MouseLoop),
            !(cmd is PrintActivityStatus),
        ensures
            match *cmd {
                Command::MouseLoop => true,
                Command::PrintActivityStatus => true,
                Command::MoveRight { cycle, move_window } => self.move_plan_ok(
                    r,
                    current@,
                    1,
                    0,
                    cycle,
                    move_window,
                    true,
                ),
                Command::MoveLeft { cycle, move_window } => self.move_plan_ok(
                    r,
                    current@,
                    -1,
                    0,
                    cycle,
                    move_window,
                    true,
                ),
                Command::MoveUp { cycle, move_window } => self.move_plan_ok(
                    r,
                    current@,
                    0,
                    -1,
                    cycle,
                    move_window,
                    false,
                ),
                Command::MoveDown { cycle, move_window } => self.move_plan_ok(
                    r,
                    current@,
                    0,
                    1,
                    cycle,
                    move_window,
                    false,
                ),
                Command::NextActivity { cycle, move_window } => self.activity_plan_ok(
                    r,
                    current@,
                    cycle,
                    false,
                    move_window,
                ),
                Command::PrevActivity { cycle, move_window } => self.activity_plan_ok(
                    r,
                    current@,
                    cycle,
                    true,
                    move_window,
                ),
                Command::SwitchToActivity { ref name, move_window } => self
                    .switch_activity_plan_ok(r, current@, name@, move_window),
                Command::SwitchToWorkspaceInActivity { ref name, move_window } => self
                    .workspace_in_activity_plan_ok(r, current@, name@, move_window),
                Command::SwitchToWorkspace { ref name, move_window } => self
                    .switch_workspace_plan_ok(r, name@, move_window),
            },
    {
        match cmd {
            Command::MouseLoop => Err(KoolError::NotInManagedWorkspace),
            Command::PrintActivityStatus => Err(KoolError::NotInManagedWorkspace),
            Command::MoveRight { cycle, move_window } => self.move_plan(
                current,
                1,
                0,
                *cycle,
                *move_window,
                true,
            ),
            Command::MoveLeft { cycle, move_window } => self.move_plan(
                current,
                -1,
                0,
                *cycle,
                *move_window,
                true,
            ),
            Command::MoveUp { cycle, move_window } => self.move_plan(
                current,
                0,
                -1,
                *cycle,
                *move_window,
                false,
            ),
            Command::MoveDown { cycle, move_window } => self.move_plan(
                current,
                0,
                1,
                *cycle,
                *move_window,
                false,
            ),
            Command::NextActivity { cycle, move_window } => self.activity_plan(
                current,
                *cycle,
                false,
                *move_window,
            ),
            Command::PrevActivity { cycle, move_window } => self.activity_plan(
                current,
                *cycle,
                true,
                *move_window,
            ),
            Command::SwitchToActivity { name, move_window } => {
                let w = self.switch_to_activity_name(current, name.as_str());
                Ok(Plan {
                    animation: self.animation_arg_activity(),
                    workspace: w,
                    move_window: *move_window,
                })
            },
            Command::SwitchToWorkspaceInActivity { name, move_window } => {
                match self.workspace_in_activity_target(current, name.as_str()) {
                    Ok(w) => Ok(
                        Plan {
                            animation: self.animation_arg_activity(),
                            workspace: w,
                            move_window: *move_window,
                        },
                    ),
                    Err(e) => Err(e),
                }
            },
            Command::SwitchToWorkspace { name, move_window } => {
                match self.switch_to_workspace_target(name.as_str()) {
                    Ok(w) => Ok(
                        Plan {
                            animation: self.animation_arg_activity(),
                            workspace: w,
                            move_window: *move_window,
                        },
                    ),
                    Err(e) => Err(e),
                }
            },
        }
    }

    /// One directional move: resolve, step on the grid, pick the axis
    /// animation.
    fn move_plan(
        &self,
        current: &str,
        dx: i64,
        dy: i64,
        cycle: bool,
        move_window: bool,
        horizontal: bool,
    ) -> (r: Result<Plan, KoolError>)
        requires
            self.wf(),
            -3 <= dx <= 3,
            -3 <= dy <= 3,
        ensures
            self.move_plan_ok(r, current@, dx as int, dy as int, cycle, move_window, horizontal),
    {
        match self.moved_workspace(current, dx, dy, cycle) {
            Ok(w) => {
                let animation = if horizontal {
                    self.animation_arg_horizontal()
                } else {
                    self.animation_arg_vertical()
                };
                Ok(Plan { animation, workspace: w, move_window })
            },
            Err(e) => Err(e),
        }
    }

    /// One activity step: resolve the current activity, step along the
    /// activity list, reuse the local suffix.
    fn activity_plan(&self, current: &str, cycle: bool, backwards: bool, move_window: bool) -> (r:
        Result<Plan, KoolError>)
        requires
            self.wf(),
        ensures
            self.activity_plan_ok(r, current@, cycle, backwards, move_window),
    {
        let ai = self.get_activity_index(current);
        let target = self.next_activity_index(ai, cycle, backwards);
        let w = self.activity_workspace_name(current, target);
        proof {
            match ai {
                Some(a0) => {
                    assert(self.activity_match(current@, a0 as int));
                    assert forall|a: int| #[trigger]
                        self.activity_match(current@, a) implies a == a0 as int by {
                        lemma_activity_match_unique(self, current@, a0 as int, a);
                    }
                },
                None => {},
            }
        }
        Ok(Plan { animation: self.animation_arg_activity(), workspace: w, move_window })
    }
}

/// Assemble an animation keyword argument.
fn build_animation_arg(enable: bool, duration: u64, curve: &str, style: &Option<String>) -> (r:
    String)
    ensures
        r@ == animation_arg(enable, duration, curve@, opt_str_view(*style)),
{
    let mut s = String::from_str("workspaces,");
    s.append(if enable { "1" } else { "0" });
    s.append(",");
    let d = u64_to_string(duration);
    s.append(d.as_str());
    s.append(",");
    s.append(curve);
    s.append(",");
    match style {
        Some(st) => s.append(st.as_str()),
        None => {
            proof {
                assert(s@ =~= s@ + Seq::<char>::empty());
            }
        },
    }
    s
}

/// The first-match rule picks one activity: two indices that both satisfy
/// `activity_match` for the same name are equal.
pub proof fn lemma_activity_match_unique(s: &State, name: Seq<char>, a1: int, a2: int)
    requires
        s.activity_match(name, a1),
        s.activity_match(name, a2),
    ensures
        a1 == a2,
{
}

/// A name resolves to at most one grid slot.
pub proof fn lemma_resolves_unique(s: &State, name: Seq<char>, a1: int, l1: int, a2: int, l2: int)
    requires
        s.wf(),
        s.resolves_to(name, a1, l1),
        s.resolves_to(name, a2, l2),
    ensures
        a1 == a2,
        l1 == l2,
{
    lemma_activity_match_unique(s, name, a1, a2);
    let act = s.acts()[a1];
    reveal_strlit(":");
    assert(ws_name(act, l1).len() == act.len() + 2);
    assert(ws_name(act, l1)[act.len() as int + 1] == digit_char(l1 + 1));
    assert(ws_name(act, l2)[act.len() as int + 1] == digit_char(l2 + 1));
}

/// Generated workspace names resolve to their own coordinates: when no
/// activity name is a prefix of another and none contains a colon, the
/// composite name of slot `l` of activity `a` resolves to exactly
/// `(a, l)`. (With colliding names — one activity a prefix of another, or
/// a colon inside an activity name — an earlier activity can capture the
/// name and the claim fails.)
pub proof fn lemma_generated_name_resolves(s: &State, a: int, l: int)
    requires
        s.wf(),
        0 <= a < s.acts().len(),
        0 <= l < 9,
        forall|i: int, j: int|
            #![trigger s.acts()[i], s.acts()[j]]
            0 <= i < s.acts().len() && 0 <= j < s.acts().len() && i != j ==> !is_prefix_of(
                s.acts()[i],
                s.acts()[j],
            ),
        forall|i: int| 0 <= i < s.acts().len() ==> !(#[trigger] s.acts()[i]).contains(':'),
    ensures
        s.resolves_to(ws_name(s.acts()[a], l), a, l),
{
    let act = s.acts()[a];
    let name = ws_name(act, l);
    reveal_strlit(":");
    assert(name.len() == act.len() + 2);
    assert(name.subrange(0, act.len() as int) =~= act);
    assert(is_prefix_of(act, name));
    assert forall|j: int| 0 <= j < a implies !is_prefix_of(#[trigger] s.acts()[j], name) by {
        let actj = s.acts()[j];
        if is_prefix_of(actj, name) {
            if actj.len() <= act.len() {
                assert forall|k: int| 0 <= k < actj.len() implies act[k] == actj[k] by {
                    assert(name.subrange(0, actj.len() as int)[k] == actj[k]);
                }
                assert(act.subrange(0, actj.len() as int) =~= actj);
                assert(is_prefix_of(actj, act));
                assert(false);
            } else {
                assert(name.subrange(0, actj.len() as int)[act.len() as int] == actj[act.len() as int]);
                assert(name[act.len() as int] == ':');
                assert(actj.contains(':'));
                assert(false);
            }
        }
    }
}

/// If `name` matches activity `a` but none of its nine generated names,
/// it resolves to no grid slot at all.
pub proof fn lemma_no_exact_match(s: &State, name: Seq<char>, a: int)
    requires
        s.wf(),
        s.activity_match(name, a),
        forall|l: int| 0 <= l < 9 ==> name != ws_name(s.acts()[a], l),
    ensures
        !(exists|a2: int, l2: int| s.resolves_to(name, a2, l2)),
{
    assert forall|a2: int, l2: int| !(#[trigger] s.resolves_to(name, a2, l2)) by {
        if s.resolves_to(name, a2, l2) {
            lemma_activity_match_unique(s, name, a, a2);
        }
    }
}

} // verus!
