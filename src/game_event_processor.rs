//! The rule engine: which configured actions a new telemetry snapshot triggers.
//!
//! The one condition evaluated today is a fall in health beyond the noise
//! threshold; every enabled rule fires on it, in the order the rules are stored.

use vstd::prelude::*;
use crate::configuration_manager::{ApplicationSettings, DeviceAction, EventActionSetting};
use crate::war_thunder_connector::{health_dropped, is_health_drop, WarThunderIndicators};

verus! {

/// The rolling memory of the last processed telemetry values.
#[derive(Clone, Copy, Debug, PartialEq, Eq, Structural)]
pub struct GameStateSnapshot {
    pub last_health_milli_percent: Option<i32>,
}

impl Default for GameStateSnapshot {
    fn default() -> (r: Self)
        ensures
            r.last_health_milli_percent is None,
    {
        GameStateSnapshot { last_health_milli_percent: None }
    }
}

/// The actions of the enabled rules, in rule order.
pub open spec fn enabled_actions(rules: Seq<EventActionSetting>) -> Seq<DeviceAction>
    decreases rules.len(),
{
    if rules.len() == 0 {
        Seq::empty()
    } else if rules.last().enabled {
        enabled_actions(rules.drop_last()).push(rules.last().device_action)
    } else {
        enabled_actions(rules.drop_last())
    }
}

/// The actions that a new reading triggers, given the previous one.
pub open spec fn triggered_actions(
    rules: Seq<EventActionSetting>,
    previous: Option<i32>,
    current: Option<i32>,
) -> Seq<DeviceAction> {
    if health_dropped(previous, current) {
        enabled_actions(rules)
    } else {
        Seq::empty()
    }
}

/// Evaluates the rules of `settings` against a new snapshot and the remembered
/// state, then remembers the new snapshot's values.
pub fn process_war_thunder_data(
    current_indicators: &WarThunderIndicators,
    settings: &ApplicationSettings,
    previous_state: &mut GameStateSnapshot,
) -> (r: Vec<DeviceAction>)
    ensures
        r@ == triggered_actions(
            settings.event_actions@,
            old(previous_state).last_health_milli_percent,
            current_indicators.health_milli_percent,
        ),
        final(previous_state).last_health_milli_percent == current_indicators.health_milli_percent,
{
    let mut actions: Vec<DeviceAction> = Vec::new();
    if is_health_drop(previous_state.last_health_milli_percent, current_indicators.health_milli_percent) {
        let rules = &settings.event_actions;
        let mut i: usize = 0;
        while i < rules.len()
            invariant
                i <= rules@.len(),
                actions@ == enabled_actions(rules@.subrange(0, i as int)),
            decreases rules@.len() - i,
        {
            assert(rules@.subrange(0, i + 1).drop_last() =~= rules@.subrange(0, i as int));
            if rules[i].enabled {
                actions.push(rules[i].device_action);
            }
            i = i + 1;
        }
        assert(rules@.subrange(0, rules@.len() as int) =~= rules@);
    }
    previous_state.last_health_milli_percent = current_indicators.health_milli_percent;
    actions
}

} // verus!
