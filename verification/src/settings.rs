//! The persisted user preferences and the auto-update toggle.
//!
//! The settings store itself is a platform key/value facility; this module
//! models its contents as plain optional integers (a key that is absent or
//! unreadable is `None`) and states exactly how the auto-update preference
//! is interpreted and toggled.

use vstd::prelude::*;

verus! {

/// The application's view of its persisted preferences: the first-run
/// marker and the auto-update flag, each a small integer stored under its
/// own key, or absent.
#[derive(Clone, Copy, PartialEq, Eq, Debug)]
pub struct SettingsView {
    pub first_time_use: Option<u32>,
    pub auto_update: Option<u32>,
}

/// A stored flag counts as enabled exactly when it is present and nonzero;
/// an absent or unreadable value is treated as disabled, so the first
/// toggle of a fresh installation enables the feature.
pub open spec fn flag_enabled(v: Option<u32>) -> bool {
    match v {
        Some(n) => n > 0,
        None => false,
    }
}

/// Reads a stored flag as a boolean. This also decides the auto-update
/// routine: the update check runs exactly when the stored auto-update
/// value is present and nonzero.
pub fn auto_update_enabled(v: &Option<u32>) -> (r: bool)
    ensures
        r == flag_enabled(*v),
{
    match v {
        Some(n) => *n > 0,
        None => false,
    }
}

/// The value written by a toggle whose menu item currently shows `checked`:
/// a checked item is turned off, an unchecked one is turned on.
pub open spec fn spec_toggled_value(checked: bool) -> u32 {
    if checked {
        0u32
    } else {
        1u32
    }
}

/// Computes the flag value a toggle stores, given the current checkbox
/// state of its menu item.
pub fn toggled_value(checked: bool) -> (r: u32)
    ensures
        r == spec_toggled_value(checked),
{
    if checked {
        0
    } else {
        1
    }
}

/// The settings after the auto-update preference is toggled from a menu
/// item showing `checked`; the first-run marker is untouched.
pub open spec fn spec_toggle_auto_update(s: SettingsView, checked: bool) -> SettingsView {
    SettingsView { first_time_use: s.first_time_use, auto_update: Some(spec_toggled_value(checked)) }
}

/// Toggles the persisted auto-update flag, given the checkbox state the
/// menu currently shows, and says whether an update check must follow:
/// a check runs exactly when the new value enables the feature.
pub fn toggle_auto_update(s: &mut SettingsView, checked: bool) -> (check_now: bool)
    ensures
        *final(s) == spec_toggle_auto_update(*old(s), checked),
        final(s).first_time_use == old(s).first_time_use,
        check_now == flag_enabled(final(s).auto_update),
        check_now == !checked,
{
    let v = toggled_value(checked);
    s.auto_update = Some(v);
    v > 0
}

/// Law: toggling the auto-update preference twice, each time from a menu
/// state that reflects the stored flag, restores the original meaning of
/// the flag: the feature is enabled after the round trip exactly when it
/// was enabled before it.
pub proof fn lemma_toggle_round_trip_enabledness(s: SettingsView)
    ensures
        ({
            let once = spec_toggle_auto_update(s, flag_enabled(s.auto_update));
            let twice = spec_toggle_auto_update(once, flag_enabled(once.auto_update));
            flag_enabled(twice.auto_update) == flag_enabled(s.auto_update)
        }),
{
}

/// Law: starting from the flag stored as disabled, one toggle stores the
/// enabled value and calls for an immediate update check, and a second
/// toggle stores the disabled value again, skips the check, and leaves the
/// settings exactly as they began.
pub proof fn lemma_toggle_round_trip_exact(s: SettingsView)
    requires
        s.auto_update == Some(0u32),
    ensures
        ({
            let once = spec_toggle_auto_update(s, false);
            let twice = spec_toggle_auto_update(once, true);
            &&& once.auto_update == Some(1u32)
            &&& flag_enabled(once.auto_update)
            &&& !flag_enabled(twice.auto_update)
            &&& twice == s
        }),
{
}

} // verus!
