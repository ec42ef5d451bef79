//! The first-run bootstrap.
//!
//! On every launch, before the event loop starts, the application reads the
//! stored first-run marker and runs a short plan against the settings store:
//! a genuinely first launch marks itself done, registers the executable to
//! run at login, and enables auto update; every later launch does nothing.
//! This module computes that plan, models its effect on the settings, and
//! states the failure policy each step carries.

use crate::settings::auto_update_enabled;
use crate::settings::flag_enabled;
use crate::settings::SettingsView;
use vstd::prelude::*;

verus! {

/// One step of the bootstrap plan, in the order the shell must perform it.
/// The two write steps go to the settings store; `EnableStartup` invokes
/// the platform's login-item registration.
#[derive(Clone, Copy, PartialEq, Eq, Debug)]
pub enum BootstrapStep {
    WriteFirstTimeUse { value: u32 },
    EnableStartup,
    WriteAutoUpdate { value: u32 },
}

/// A launch counts as the first run unless the marker is stored as done
/// (zero). An absent marker means a fresh installation; a nonzero marker
/// means an earlier launch wrote it and then did not get to clear it.
pub open spec fn spec_is_first_run(first_time_use: Option<u32>) -> bool {
    first_time_use != Some(0u32)
}

/// The bootstrap plan for a given stored first-run marker.
///
/// A fresh installation first writes the marker as pending, so that a crash
/// before the side effects still leaves a marker behind; then, as on any
/// first run, the marker is cleared, startup registration is enabled, and
/// auto update is switched on. A launch whose marker is already cleared
/// does nothing.
pub open spec fn spec_bootstrap_steps(first_time_use: Option<u32>) -> Seq<BootstrapStep> {
    if first_time_use is None {
        seq![
            BootstrapStep::WriteFirstTimeUse { value: 1u32 },
            BootstrapStep::WriteFirstTimeUse { value: 0u32 },
            BootstrapStep::EnableStartup,
            BootstrapStep::WriteAutoUpdate { value: 1u32 },
        ]
    } else if spec_is_first_run(first_time_use) {
        seq![
            BootstrapStep::WriteFirstTimeUse { value: 0u32 },
            BootstrapStep::EnableStartup,
            BootstrapStep::WriteAutoUpdate { value: 1u32 },
        ]
    } else {
        Seq::<BootstrapStep>::empty()
    }
}

/// Computes the bootstrap plan for the stored first-run marker.
pub fn bootstrap_steps(first_time_use: Option<u32>) -> (steps: Vec<BootstrapStep>)
    ensures
        steps@ == spec_bootstrap_steps(first_time_use),
{
    let mut steps: Vec<BootstrapStep> = Vec::new();
    match first_time_use {
        None => {
            steps.push(BootstrapStep::WriteFirstTimeUse { value: 1 });
            steps.push(BootstrapStep::WriteFirstTimeUse { value: 0 });
            steps.push(BootstrapStep::EnableStartup);
            steps.push(BootstrapStep::WriteAutoUpdate { value: 1 });
            assert(steps@ =~= spec_bootstrap_steps(first_time_use));
        },
        Some(v) => {
            if v != 0 {
                steps.push(BootstrapStep::WriteFirstTimeUse { value: 0 });
                steps.push(BootstrapStep::EnableStartup);
                steps.push(BootstrapStep::WriteAutoUpdate { value: 1 });
                assert(steps@ =~= spec_bootstrap_steps(first_time_use));
            } else {
                assert(steps@ =~= spec_bootstrap_steps(first_time_use));
            }
        },
    }
    steps
}

/// The failure policy of the plan: a failed write of the first-run marker
/// abandons the rest of the bootstrap, while a failed startup registration
/// or auto-update write is swallowed and the plan continues. Bootstrap is
/// best-effort throughout; no failure aborts the application.
pub fn step_aborts_on_failure(step: &BootstrapStep) -> (r: bool)
    ensures
        r == (step is WriteFirstTimeUse),
{
    match step {
        BootstrapStep::WriteFirstTimeUse { .. } => true,
        BootstrapStep::EnableStartup => false,
        BootstrapStep::WriteAutoUpdate { .. } => false,
    }
}

/// The settings after one step of the plan. `EnableStartup` acts on the
/// platform's login items, not on the settings store, so it leaves the
/// settings unchanged.
pub open spec fn spec_apply_step(s: SettingsView, step: BootstrapStep) -> SettingsView {
    match step {
        BootstrapStep::WriteFirstTimeUse { value } => SettingsView {
            first_time_use: Some(value),
            auto_update: s.auto_update,
        },
        BootstrapStep::EnableStartup => s,
        BootstrapStep::WriteAutoUpdate { value } => SettingsView {
            first_time_use: s.first_time_use,
            auto_update: Some(value),
        },
    }
}

/// Applies one plan step to the settings view.
pub fn apply_step(s: &mut SettingsView, step: &BootstrapStep)
    ensures
        *final(s) == spec_apply_step(*old(s), *step),
{
    match step {
        BootstrapStep::WriteFirstTimeUse { value } => {
            s.first_time_use = Some(*value);
        },
        BootstrapStep::EnableStartup => {},
        BootstrapStep::WriteAutoUpdate { value } => {
            s.auto_update = Some(*value);
        },
    }
}

/// The settings after a whole plan, applied front to back.
pub open spec fn spec_apply_steps(s: SettingsView, steps: Seq<BootstrapStep>) -> SettingsView
    decreases steps.len(),
{
    if steps.len() == 0 {
        s
    } else {
        spec_apply_step(spec_apply_steps(s, steps.drop_last()), steps.last())
    }
}

/// Runs the bootstrap plan against the settings view and reports whether
/// startup registration was requested, which happens exactly on a first
/// run. On a first run the marker ends cleared and auto update ends
/// enabled; otherwise the settings are left exactly as they were.
pub fn run_bootstrap(s: &mut SettingsView) -> (enable_startup: bool)
    ensures
        *final(s) == spec_apply_steps(*old(s), spec_bootstrap_steps(old(s).first_time_use)),
        enable_startup == spec_is_first_run(old(s).first_time_use),
        spec_is_first_run(old(s).first_time_use) ==> final(s).first_time_use == Some(0u32)
            && final(s).auto_update == Some(1u32),
        !spec_is_first_run(old(s).first_time_use) ==> *final(s) == *old(s),
{
    let steps = bootstrap_steps(s.first_time_use);
    let ghost plan = steps@;
    let mut enable_startup = false;
    let mut i: usize = 0;
    while i < steps.len()
        invariant
            steps@ == plan,
            plan == spec_bootstrap_steps(old(s).first_time_use),
            i <= plan.len(),
            *s == spec_apply_steps(*old(s), plan.take(i as int)),
            enable_startup == exists|j: int| 0 <= j < i && plan[j] is EnableStartup,
        decreases steps.len() - i,
    {
        let step = steps[i];
        apply_step(s, &step);
        if matches!(step, BootstrapStep::EnableStartup) {
            enable_startup = true;
        }
        proof {
            assert(plan.take(i + 1).drop_last() =~= plan.take(i as int));
            assert(plan.take(i + 1).last() == plan[i as int]);
        }
        i = i + 1;
    }
    proof {
        assert(plan.take(plan.len() as int) =~= plan);
        lemma_plan_outcome(*old(s));
    }
    enable_startup
}

/// Spells out what the plan for each kind of stored marker does to the
/// settings and whether it contains the startup-registration step.
proof fn lemma_plan_outcome(s: SettingsView)
    ensures
        ({
            let plan = spec_bootstrap_steps(s.first_time_use);
            let done = spec_apply_steps(s, plan);
            &&& spec_is_first_run(s.first_time_use) ==> done.first_time_use == Some(0u32)
                && done.auto_update == Some(1u32)
            &&& !spec_is_first_run(s.first_time_use) ==> done == s
            &&& (exists|j: int| 0 <= j < plan.len() && plan[j] is EnableStartup)
                == spec_is_first_run(s.first_time_use)
        }),
{
    let plan = spec_bootstrap_steps(s.first_time_use);
    if s.first_time_use is None {
        assert(plan[2] is EnableStartup);
        reveal_with_fuel(spec_apply_steps, 5);
    } else if spec_is_first_run(s.first_time_use) {
        assert(plan[1] is EnableStartup);
        reveal_with_fuel(spec_apply_steps, 4);
    } else {
        assert(forall|j: int| 0 <= j < plan.len() ==> !(plan[j] is EnableStartup));
    }
}

/// The decisions of a process start, in order: run the bootstrap plan,
/// then decide the conditional update check from the stored auto-update
/// flag as the bootstrap left it. Returns whether startup registration was
/// requested and whether an update check must run before the tray becomes
/// interactive. A first run always ends with an update check, since it
/// just enabled the flag.
pub fn startup_sequence(s: &mut SettingsView) -> (r: (bool, bool))
    ensures
        *final(s) == spec_apply_steps(*old(s), spec_bootstrap_steps(old(s).first_time_use)),
        r.0 == spec_is_first_run(old(s).first_time_use),
        r.1 == flag_enabled(final(s).auto_update),
        spec_is_first_run(old(s).first_time_use) ==> final(s).first_time_use == Some(0u32)
            && final(s).auto_update == Some(1u32) && r.1,
        !spec_is_first_run(old(s).first_time_use) ==> *final(s) == *old(s),
{
    let enable_startup = run_bootstrap(s);
    let check_update = auto_update_enabled(&s.auto_update);
    (enable_startup, check_update)
}

/// Law: bootstrap is idempotent. One run leaves the first-run marker
/// cleared, so the plan of an immediately following run is empty: it
/// changes nothing and performs no side effects.
pub proof fn lemma_bootstrap_idempotent(s: SettingsView)
    ensures
        ({
            let once = spec_apply_steps(s, spec_bootstrap_steps(s.first_time_use));
            let second_plan = spec_bootstrap_steps(once.first_time_use);
            &&& second_plan == Seq::<BootstrapStep>::empty()
            &&& spec_apply_steps(once, second_plan) == once
        }),
{
    lemma_plan_outcome(s);
}

} // verus!
