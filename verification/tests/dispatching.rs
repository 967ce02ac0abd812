use powermenu::command::CommandSpec;
use powermenu::dispatch::{
    close_commands, commands_for, lockscreen_commands, logout_commands, reboot_commands,
    shutdown_commands, suspend_commands, wm_query_command, Action,
};
use powermenu::wm::WindowManager;

fn assert_cmd(c: &CommandSpec, program: &str, args: &[&str]) {
    assert_eq!(c.program, program);
    let got: Vec<&str> = c.args.iter().map(|a| a.as_str()).collect();
    assert_eq!(got, args);
}

#[test]
fn shutdown_is_systemctl_poweroff() {
    let cmds = shutdown_commands();
    assert_eq!(cmds.len(), 1);
    assert_cmd(&cmds[0], "systemctl", &["poweroff"]);
}

#[test]
fn reboot_is_systemctl_reboot() {
    let cmds = reboot_commands();
    assert_eq!(cmds.len(), 1);
    assert_cmd(&cmds[0], "systemctl", &["reboot"]);
}

#[test]
fn suspend_is_systemctl_suspend() {
    let cmds = suspend_commands();
    assert_eq!(cmds.len(), 1);
    assert_cmd(&cmds[0], "systemctl", &["suspend"]);
}

#[test]
fn simple_actions_ignore_window_manager() {
    for wm in [
        WindowManager::Hyprland,
        WindowManager::Lg3d,
        WindowManager::Dwm,
        WindowManager::Unknown,
    ] {
        let cmds = commands_for(Action::Shutdown, wm);
        assert_eq!(cmds.len(), 1);
        assert_cmd(&cmds[0], "systemctl", &["poweroff"]);
        let cmds = commands_for(Action::Reboot, wm);
        assert_eq!(cmds.len(), 1);
        assert_cmd(&cmds[0], "systemctl", &["reboot"]);
        let cmds = commands_for(Action::Suspend, wm);
        assert_eq!(cmds.len(), 1);
        assert_cmd(&cmds[0], "systemctl", &["suspend"]);
    }
}

#[test]
fn logout_under_hyprland() {
    let cmds = commands_for(Action::Logout, WindowManager::Hyprland);
    assert_eq!(cmds.len(), 1);
    assert_cmd(&cmds[0], "hyprctl", &["dispatch", "exit"]);
}

#[test]
fn logout_under_qtile() {
    let cmds = commands_for(Action::Logout, WindowManager::Lg3d);
    assert_eq!(cmds.len(), 1);
    assert_cmd(&cmds[0], "qtile", &["cmd-obj", "-o", "cmd", "-f", "shutdown"]);
}

#[test]
fn logout_under_dwm() {
    let cmds = commands_for(Action::Logout, WindowManager::Dwm);
    assert_eq!(cmds.len(), 1);
    assert_cmd(&cmds[0], "pkill", &["dwm"]);
}

#[test]
fn logout_under_unknown_does_nothing() {
    let cmds = commands_for(Action::Logout, WindowManager::Unknown);
    assert!(cmds.is_empty());
}

#[test]
fn lockscreen_under_hyprland() {
    let cmds = commands_for(Action::Lockscreen, WindowManager::Hyprland);
    assert_eq!(cmds.len(), 2);
    assert_cmd(&cmds[0], "hyprlock", &[]);
    assert_cmd(&cmds[1], "killall", &["powermenu"]);
}

#[test]
fn lockscreen_under_qtile() {
    let cmds = commands_for(Action::Lockscreen, WindowManager::Lg3d);
    assert_eq!(cmds.len(), 2);
    assert_cmd(&cmds[0], "betterlockscreen", &["-l"]);
    assert_cmd(&cmds[1], "killall", &["powermenu"]);
}

#[test]
fn lockscreen_under_dwm() {
    let cmds = commands_for(Action::Lockscreen, WindowManager::Dwm);
    assert_eq!(cmds.len(), 2);
    assert_cmd(&cmds[0], "betterlockscreen", &["-l"]);
    assert_cmd(&cmds[1], "killall", &["powermenu"]);
}

#[test]
fn lockscreen_under_unknown_does_nothing() {
    let cmds = commands_for(Action::Lockscreen, WindowManager::Unknown);
    assert!(cmds.is_empty());
}

#[test]
fn lockscreen_commands_from_query_output() {
    let cmds = lockscreen_commands("Name: Hyprland\nClass: N/A");
    assert_eq!(cmds.len(), 2);
    assert_cmd(&cmds[0], "hyprlock", &[]);
    assert_cmd(&cmds[1], "killall", &["powermenu"]);
}

#[test]
fn logout_commands_from_query_output() {
    let cmds = logout_commands("Name: LG3D");
    assert_eq!(cmds.len(), 1);
    assert_cmd(&cmds[0], "qtile", &["cmd-obj", "-o", "cmd", "-f", "shutdown"]);
}

#[test]
fn logout_commands_from_unknown_output() {
    let cmds = logout_commands("Name: GNOME Shell");
    assert!(cmds.is_empty());
}

#[test]
fn close_is_one_termination_command() {
    let cmds = close_commands();
    assert_eq!(cmds.len(), 1);
    assert_cmd(&cmds[0], "killall", &["powermenu"]);
}

#[test]
fn query_command_is_wmctrl() {
    let c = wm_query_command();
    assert_cmd(&c, "wmctrl", &["-m"]);
}
