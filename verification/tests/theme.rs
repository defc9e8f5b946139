use auto_dark_mode::autostart::run_key_value;
use auto_dark_mode::theme::{
    get_theme_state, is_secondary_taskbar_class, is_shell_taskbar_class, needs_switch,
    theme_switch_plan, tweaked_colorization, ThemeSwitchPlan,
};
use auto_dark_mode::ThemeState;

fn state(is_light: bool, apps_light: bool, system_light: bool) -> ThemeState {
    ThemeState { is_light, apps_light, system_light }
}

/// Performs a plan's writes on (apps, system) values.
fn execute(plan: &ThemeSwitchPlan, mut values: (Option<u32>, Option<u32>)) -> (Option<u32>, Option<u32>) {
    let mut write = |v: u32, values: &mut (Option<u32>, Option<u32>)| {
        if plan.switch_apps {
            values.0 = Some(v);
        }
        if plan.switch_system {
            values.1 = Some(v);
        }
    };
    if let Some(v) = plan.precondition {
        write(v, &mut values);
    }
    write(plan.target, &mut values);
    values
}

#[test]
fn reads_theme_values() {
    assert_eq!(get_theme_state(Some(1), Some(1)), state(true, true, true));
    assert_eq!(get_theme_state(Some(0), Some(1)), state(false, false, true));
    assert_eq!(get_theme_state(Some(1), Some(0)), state(false, true, false));
    assert_eq!(get_theme_state(Some(0), Some(0)), state(false, false, false));
    assert_eq!(get_theme_state(None, None), state(true, true, true));
    assert_eq!(get_theme_state(Some(2), None), state(false, false, true));
}

#[test]
fn plan_with_real_transition() {
    let p = theme_switch_plan(true, true, true, Some(0), Some(0));
    assert_eq!(p, ThemeSwitchPlan { precondition: Some(0), target: 1, switch_system: true, switch_apps: true });
    let p = theme_switch_plan(false, true, false, Some(0), Some(1));
    assert_eq!(p, ThemeSwitchPlan { precondition: Some(1), target: 0, switch_system: true, switch_apps: false });
    let p = theme_switch_plan(false, true, true, None, None);
    assert_eq!(p.precondition, Some(1));
}

#[test]
fn plan_without_change() {
    let p = theme_switch_plan(true, true, true, Some(1), Some(1));
    assert_eq!(p.precondition, None);
    assert_eq!(p.target, 1);
    // a value that the switch does not write does not count
    let p = theme_switch_plan(false, false, true, Some(0), Some(1));
    assert_eq!(p.precondition, None);
    let p = theme_switch_plan(true, false, false, Some(0), Some(0));
    assert_eq!(p.precondition, None);
}

#[test]
fn switch_then_read_gives_the_chosen_theme() {
    let values = [None, Some(0), Some(1), Some(7)];
    for light in [false, true] {
        for sys in [false, true] {
            for apps in [false, true] {
                for a in values {
                    for s in values {
                        let plan = theme_switch_plan(light, sys, apps, a, s);
                        let after = execute(&plan, (a, s));
                        let read = get_theme_state(after.0, after.1);
                        if apps {
                            assert_eq!(read.apps_light, light);
                        } else {
                            assert_eq!(after.0, a);
                        }
                        if sys {
                            assert_eq!(read.system_light, light);
                        } else {
                            assert_eq!(after.1, s);
                        }
                        if apps && sys {
                            assert_eq!(read.is_light, light);
                            assert!(!needs_switch(&read, light));
                        }
                    }
                }
            }
        }
    }
}

#[test]
fn switch_need() {
    assert!(needs_switch(&state(true, true, true), false));
    assert!(!needs_switch(&state(true, true, true), true));
    assert!(needs_switch(&state(false, true, false), true));
    assert!(!needs_switch(&state(false, false, true), false));
}

#[test]
fn colorization_tweak() {
    assert_eq!(tweaked_colorization(0xC40078D7), 0xC40078D6);
    assert_eq!(tweaked_colorization(0x80FF0000), 0x80FF0001);
    for c in [0u32, 1, 0xFFFF_FFFF, 0x1234_5678] {
        assert_ne!(tweaked_colorization(c), c);
        assert_eq!(tweaked_colorization(tweaked_colorization(c)), c);
    }
}

#[test]
fn taskbar_classes() {
    assert!(is_shell_taskbar_class("Shell_TrayWnd"));
    assert!(is_shell_taskbar_class("Shell_SecondaryTrayWnd"));
    assert!(!is_shell_taskbar_class("Shell_TrayWnd2"));
    assert!(!is_shell_taskbar_class("Progman"));
    assert!(is_secondary_taskbar_class("Shell_SecondaryTrayWnd"));
    assert!(!is_secondary_taskbar_class("Shell_TrayWnd"));
}

#[test]
fn autostart_value_quoting() {
    assert_eq!(run_key_value(r"C:\Program Files\Auto Dark Mode\app.exe"), r#""C:\Program Files\Auto Dark Mode\app.exe""#);
    assert_eq!(run_key_value(r"C:\Tools\app.exe"), r"C:\Tools\app.exe");
    assert_eq!(run_key_value(" "), "\" \"");
    assert_eq!(run_key_value(""), "");
}
