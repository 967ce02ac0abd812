//! The action dispatcher: which commands each power action runs.
//!
//! Three actions (shutdown, reboot, suspend) run one fixed `systemctl`
//! command whatever the session. Logout and lock screen depend on the window
//! manager: each recognised one has its own command sequence, and an
//! unrecognised one gets no commands at all. `spec_plan` is the whole table
//! in one spec function; `commands_for` is its executable counterpart.

use vstd::prelude::*;

use crate::command::{arg, cmd_view, command, plan_view, CommandSpec, SpecCommand, SpecPlan};
use crate::wm::{detect_window_manager, spec_detect, WindowManager};

verus! {

/// One user-selectable power operation.
#[derive(Clone, Copy, PartialEq, Eq, Debug, Structural)]
pub enum Action {
    Shutdown,
    Reboot,
    Suspend,
    Logout,
    Lockscreen,
}

/// The command that ends the menu's own process: `killall powermenu`.
pub open spec fn spec_kill_menu() -> SpecCommand {
    ("killall"@, seq!["powermenu"@])
}

/// The command whose output names the running window manager: `wmctrl -m`.
pub open spec fn spec_wm_query() -> SpecCommand {
    ("wmctrl"@, seq!["-m"@])
}

/// The exact command plan for an action under a given window manager:
/// which programs to run, with which arguments, in which order.
pub open spec fn spec_plan(action: Action, wm: WindowManager) -> SpecPlan {
    match action {
        Action::Shutdown => seq![("systemctl"@, seq!["poweroff"@])],
        Action::Reboot => seq![("systemctl"@, seq!["reboot"@])],
        Action::Suspend => seq![("systemctl"@, seq!["suspend"@])],
        Action::Logout => match wm {
            WindowManager::Hyprland => seq![("hyprctl"@, seq!["dispatch"@, "exit"@])],
            WindowManager::Lg3d => seq![
                ("qtile"@, seq!["cmd-obj"@, "-o"@, "cmd"@, "-f"@, "shutdown"@]),
            ],
            WindowManager::Dwm => seq![("pkill"@, seq!["dwm"@])],
            WindowManager::Unknown => Seq::<SpecCommand>::empty(),
        },
        Action::Lockscreen => match wm {
            WindowManager::Hyprland => seq![
                ("hyprlock"@, Seq::<Seq<char>>::empty()),
                spec_kill_menu(),
            ],
            WindowManager::Lg3d => seq![
                ("betterlockscreen"@, seq!["-l"@]),
                spec_kill_menu(),
            ],
            WindowManager::Dwm => seq![
                ("betterlockscreen"@, seq!["-l"@]),
                spec_kill_menu(),
            ],
            WindowManager::Unknown => Seq::<SpecCommand>::empty(),
        },
    }
}

/// Builds the exact command plan for `action` under `wm`, as `spec_plan`
/// lays it down.
pub fn commands_for(action: Action, wm: WindowManager) -> (cmds: Vec<CommandSpec>)
    ensures
        plan_view(cmds@) == spec_plan(action, wm),
{
    let mut cmds: Vec<CommandSpec> = Vec::new();
    match action {
        Action::Shutdown => {
            let mut args: Vec<String> = Vec::new();
            args.push(arg("poweroff"));
            cmds.push(command("systemctl", args));
        },
        Action::Reboot => {
            let mut args: Vec<String> = Vec::new();
            args.push(arg("reboot"));
            cmds.push(command("systemctl", args));
        },
        Action::Suspend => {
            let mut args: Vec<String> = Vec::new();
            args.push(arg("suspend"));
            cmds.push(command("systemctl", args));
        },
        Action::Logout => match wm {
            WindowManager::Hyprland => {
                let mut args: Vec<String> = Vec::new();
                args.push(arg("dispatch"));
                args.push(arg("exit"));
                cmds.push(command("hyprctl", args));
            },
            WindowManager::Lg3d => {
                let mut args: Vec<String> = Vec::new();
                args.push(arg("cmd-obj"));
                args.push(arg("-o"));
                args.push(arg("cmd"));
                args.push(arg("-f"));
                args.push(arg("shutdown"));
                cmds.push(command("qtile", args));
            },
            WindowManager::Dwm => {
                let mut args: Vec<String> = Vec::new();
                args.push(arg("dwm"));
                cmds.push(command("pkill", args));
            },
            WindowManager::Unknown => {},
        },
        Action::Lockscreen => match wm {
            WindowManager::Hyprland => {
                let args: Vec<String> = Vec::new();
                cmds.push(command("hyprlock", args));
                cmds.push(kill_menu_command());
            },
            WindowManager::Lg3d => {
                let mut args: Vec<String> = Vec::new();
                args.push(arg("-l"));
                cmds.push(command("betterlockscreen", args));
                cmds.push(kill_menu_command());
            },
            WindowManager::Dwm => {
                let mut args: Vec<String> = Vec::new();
                args.push(arg("-l"));
                cmds.push(command("betterlockscreen", args));
                cmds.push(kill_menu_command());
            },
            WindowManager::Unknown => {},
        },
    }
    proof {
        assert(plan_view(cmds@) =~~= spec_plan(action, wm));
    }
    cmds
}

/// Builds the command that ends the menu's own process.
pub fn kill_menu_command() -> (c: CommandSpec)
    ensures
        cmd_view(c) == spec_kill_menu(),
{
    let mut args: Vec<String> = Vec::new();
    args.push(arg("powermenu"));
    let c = command("killall", args);
    proof {
        assert(cmd_view(c) =~~= spec_kill_menu());
    }
    c
}

/// Builds the command that queries the running window manager.
pub fn wm_query_command() -> (c: CommandSpec)
    ensures
        cmd_view(c) == spec_wm_query(),
{
    let mut args: Vec<String> = Vec::new();
    args.push(arg("-m"));
    let c = command("wmctrl", args);
    proof {
        assert(cmd_view(c) =~~= spec_wm_query());
    }
    c
}

/// Commands for the lock-screen action, given the raw output of the window
/// manager query: detect the window manager, then take its lock plan.
pub fn lockscreen_commands(wm_output: &str) -> (cmds: Vec<CommandSpec>)
    ensures
        plan_view(cmds@) == spec_plan(Action::Lockscreen, spec_detect(wm_output@)),
{
    let wm = detect_window_manager(wm_output);
    commands_for(Action::Lockscreen, wm)
}

/// Commands for the logout action, given the raw output of the window
/// manager query: detect the window manager, then take its logout plan.
pub fn logout_commands(wm_output: &str) -> (cmds: Vec<CommandSpec>)
    ensures
        plan_view(cmds@) == spec_plan(Action::Logout, spec_detect(wm_output@)),
{
    let wm = detect_window_manager(wm_output);
    commands_for(Action::Logout, wm)
}

/// Commands for the shutdown action: one `systemctl poweroff`, whatever the
/// window manager.
pub fn shutdown_commands() -> (cmds: Vec<CommandSpec>)
    ensures
        forall|wm: WindowManager| plan_view(cmds@) == spec_plan(Action::Shutdown, wm),
{
    commands_for(Action::Shutdown, WindowManager::Unknown)
}

/// Commands for the reboot action: one `systemctl reboot`, whatever the
/// window manager.
pub fn reboot_commands() -> (cmds: Vec<CommandSpec>)
    ensures
        forall|wm: WindowManager| plan_view(cmds@) == spec_plan(Action::Reboot, wm),
{
    commands_for(Action::Reboot, WindowManager::Unknown)
}

/// Commands for the suspend action: one `systemctl suspend`, whatever the
/// window manager.
pub fn suspend_commands() -> (cmds: Vec<CommandSpec>)
    ensures
        forall|wm: WindowManager| plan_view(cmds@) == spec_plan(Action::Suspend, wm),
{
    commands_for(Action::Suspend, WindowManager::Unknown)
}

/// Commands run when the menu is dismissed: the termination command, exactly
/// once.
pub fn close_commands() -> (cmds: Vec<CommandSpec>)
    ensures
        plan_view(cmds@) == seq![spec_kill_menu()],
        cmds@.len() == 1,
{
    let mut cmds: Vec<CommandSpec> = Vec::new();
    cmds.push(kill_menu_command());
    proof {
        assert(plan_view(cmds@) =~~= seq![spec_kill_menu()]);
    }
    cmds
}

/// Under every recognised window manager, every action has at least one
/// command to run.
pub proof fn lemma_known_wm_has_plan(a: Action, wm: WindowManager)
    requires
        wm != WindowManager::Unknown,
    ensures
        spec_plan(a, wm).len() >= 1,
{
}

/// Under an unknown window manager the session-dependent actions run no
/// command at all: detection falls through safely.
pub proof fn lemma_unknown_wm_safe_fallthrough(a: Action)
    requires
        a == Action::Logout || a == Action::Lockscreen,
    ensures
        spec_plan(a, WindowManager::Unknown).len() == 0,
{
}

/// Shutdown, reboot and suspend do not depend on the window manager: their
/// plan is the same single command under every one.
pub proof fn lemma_global_actions_wm_independent(a: Action, wm1: WindowManager, wm2: WindowManager)
    requires
        a == Action::Shutdown || a == Action::Reboot || a == Action::Suspend,
    ensures
        spec_plan(a, wm1) == spec_plan(a, wm2),
        spec_plan(a, wm1).len() == 1,
{
}

} // verus!
