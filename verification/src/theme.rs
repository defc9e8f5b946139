//! What a theme switch writes, and how the written values read back.
//!
//! The system and app themes are two registry values (`SystemUsesLightTheme`,
//! `AppsUseLightTheme`) that hold 1 for light and 0 for dark; a missing value reads as light.
use vstd::prelude::*;

use crate::timetext::str_equals;
use crate::ThemeState;

verus! {

/// The registry value of a theme: 1 for light, 0 for dark.
pub open spec fn theme_value(light: bool) -> u32 {
    if light {
        1
    } else {
        0
    }
}

/// How a registry value reads: a missing value counts as light (1).
pub open spec fn read_value(v: Option<u32>) -> u32 {
    match v {
        Some(x) => x,
        None => 1,
    }
}

/// The theme that values read from the registry describe.
pub open spec fn theme_state_spec(apps_value: Option<u32>, system_value: Option<u32>) -> ThemeState {
    ThemeState {
        is_light: read_value(apps_value) == 1 && read_value(system_value) == 1,
        apps_light: read_value(apps_value) == 1,
        system_light: read_value(system_value) == 1,
    }
}

/// The current theme, from the values read under the `Personalize` key (`None` for a value
/// that could not be read).
pub fn get_theme_state(apps_value: Option<u32>, system_value: Option<u32>) -> (r: ThemeState)
    ensures
        r == theme_state_spec(apps_value, system_value),
        r.is_light == (r.apps_light && r.system_light),
{
    let apps = match apps_value {
        Some(v) => v,
        None => 1,
    };
    let system = match system_value {
        Some(v) => v,
        None => 1,
    };
    ThemeState { is_light: apps == 1 && system == 1, apps_light: apps == 1, system_light: system == 1 }
}

/// The writes of one theme switch: first, when the switch changes a value, the opposite
/// value (so that every taskbar goes through a real change), then the target value; each
/// write goes to the app value when `switch_apps` and to the system value when
/// `switch_system`.
#[derive(Clone, Copy, Debug, PartialEq, Eq, Structural)]
pub struct ThemeSwitchPlan {
    pub precondition: Option<u32>,
    pub target: u32,
    pub switch_system: bool,
    pub switch_apps: bool,
}

/// Whether switching to `light` changes a value that the switch writes.
pub open spec fn is_real_transition(
    light: bool,
    switch_system: bool,
    switch_apps: bool,
    apps_value: Option<u32>,
    system_value: Option<u32>,
) -> bool {
    (switch_apps && read_value(apps_value) != theme_value(light)) || (switch_system && read_value(
        system_value,
    ) != theme_value(light))
}

/// Plans the switch to `light`, given the values currently read (`None` when unreadable).
pub fn theme_switch_plan(
    light: bool,
    switch_system: bool,
    switch_apps: bool,
    apps_value: Option<u32>,
    system_value: Option<u32>,
) -> (p: ThemeSwitchPlan)
    ensures
        p.target == theme_value(light),
        p.switch_system == switch_system,
        p.switch_apps == switch_apps,
        p.precondition is Some <==> is_real_transition(
            light,
            switch_system,
            switch_apps,
            apps_value,
            system_value,
        ),
        p.precondition matches Some(v) ==> v == theme_value(!light),
{
    let target: u32 = if light {
        1
    } else {
        0
    };
    let opposite: u32 = if light {
        0
    } else {
        1
    };
    let current_apps = match apps_value {
        Some(v) => v,
        None => 1,
    };
    let current_system = match system_value {
        Some(v) => v,
        None => 1,
    };
    let apps_changes = switch_apps && current_apps != target;
    let system_changes = switch_system && current_system != target;
    let precondition = if apps_changes || system_changes {
        Some(opposite)
    } else {
        None
    };
    ThemeSwitchPlan { precondition, target, switch_system, switch_apps }
}

/// The (apps, system) values after writing `value` as a plan does.
pub open spec fn write_values(
    values: (Option<u32>, Option<u32>),
    value: u32,
    switch_system: bool,
    switch_apps: bool,
) -> (Option<u32>, Option<u32>) {
    (
        if switch_apps {
            Some(value)
        } else {
            values.0
        },
        if switch_system {
            Some(value)
        } else {
            values.1
        },
    )
}

/// The (apps, system) values after all the writes of a plan.
pub open spec fn values_after_plan(p: ThemeSwitchPlan, values: (Option<u32>, Option<u32>)) -> (
    Option<u32>,
    Option<u32>,
) {
    let mid = match p.precondition {
        Some(v) => write_values(values, v, p.switch_system, p.switch_apps),
        None => values,
    };
    write_values(mid, p.target, p.switch_system, p.switch_apps)
}

/// Whether the scheduler must write: the current theme (light only when both are light)
/// differs from the one it wants.
pub fn needs_switch(current: &ThemeState, should_light: bool) -> (r: bool)
    ensures
        r == ((current.apps_light && current.system_light) != should_light),
{
    (current.apps_light && current.system_light) != should_light
}

/// The DWM colorization color with its lowest bit flipped: written briefly so that DWM
/// sees a change and repaints, before the current color is written back.
pub fn tweaked_colorization(color: u32) -> (r: u32)
    ensures
        r == color ^ 1,
{
    color ^ 1
}

/// Window class of the primary taskbar.
pub open spec fn primary_taskbar_class() -> Seq<char> {
    "Shell_TrayWnd"@
}

/// Window class of the taskbars on secondary monitors.
pub open spec fn secondary_taskbar_class() -> Seq<char> {
    "Shell_SecondaryTrayWnd"@
}

/// Whether a window class names a shell taskbar (primary or secondary).
pub fn is_shell_taskbar_class(class_name: &str) -> (r: bool)
    ensures
        r == (class_name@ == primary_taskbar_class() || class_name@ == secondary_taskbar_class()),
{
    str_equals(class_name, "Shell_TrayWnd") || str_equals(class_name, "Shell_SecondaryTrayWnd")
}

/// Whether a window class names a secondary-monitor taskbar.
pub fn is_secondary_taskbar_class(class_name: &str) -> (r: bool)
    ensures
        r == (class_name@ == secondary_taskbar_class()),
{
    str_equals(class_name, "Shell_SecondaryTrayWnd")
}

// ---------------------------------------------------------------------------
// Laws
// ---------------------------------------------------------------------------

/// Read after write: after the writes of the switch to `light`, each value that the switch
/// writes reads as `light`, each other value reads as before, and when both are written
/// `get_theme_state` reports the theme `light`.
pub proof fn lemma_switch_then_read(
    light: bool,
    switch_system: bool,
    switch_apps: bool,
    apps_value: Option<u32>,
    system_value: Option<u32>,
    p: ThemeSwitchPlan,
)
    requires
        p.target == theme_value(light),
        p.switch_system == switch_system,
        p.switch_apps == switch_apps,
    ensures
        ({
            let after = values_after_plan(p, (apps_value, system_value));
            let st = theme_state_spec(after.0, after.1);
            &&& switch_apps ==> st.apps_light == light
            &&& !switch_apps ==> after.0 == apps_value
            &&& switch_system ==> st.system_light == light
            &&& !switch_system ==> after.1 == system_value
            &&& switch_apps && switch_system ==> st.is_light == light
        }),
{
}

/// A switch that changes nothing writes no intermediate value: when every written value
/// already reads as `light`, the plan has no precondition and leaves the values reading
/// as they did.
pub proof fn lemma_no_flash_without_change(
    light: bool,
    switch_system: bool,
    switch_apps: bool,
    apps_value: Option<u32>,
    system_value: Option<u32>,
    p: ThemeSwitchPlan,
)
    requires
        p.target == theme_value(light),
        p.switch_system == switch_system,
        p.switch_apps == switch_apps,
        p.precondition is Some <==> is_real_transition(
            light,
            switch_system,
            switch_apps,
            apps_value,
            system_value,
        ),
        switch_apps ==> read_value(apps_value) == theme_value(light),
        switch_system ==> read_value(system_value) == theme_value(light),
    ensures
        p.precondition is None,
        ({
            let after = values_after_plan(p, (apps_value, system_value));
            read_value(after.0) == read_value(apps_value) && read_value(after.1) == read_value(
                system_value,
            )
        }),
{
}

/// The scheduler settles: when it switches to the theme it wants, writing both values, the
/// state it then reads needs no further switch.
pub proof fn lemma_switch_settles(
    light: bool,
    apps_value: Option<u32>,
    system_value: Option<u32>,
    p: ThemeSwitchPlan,
)
    requires
        p.target == theme_value(light),
        p.switch_system,
        p.switch_apps,
    ensures
        ({
            let after = values_after_plan(p, (apps_value, system_value));
            let st = theme_state_spec(after.0, after.1);
            (st.apps_light && st.system_light) == light
        }),
{
}

/// Flipping the lowest colorization bit changes the color, and flipping it again restores it.
pub proof fn lemma_tweak_restores(color: u32)
    ensures
        color ^ 1 != color,
        (color ^ 1) ^ 1 == color,
{
    assert(color ^ 1 != color) by (bit_vector);
    assert((color ^ 1) ^ 1 == color) by (bit_vector);
}

} // verus!
