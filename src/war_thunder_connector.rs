//! Telemetry: the snapshot shape and the poller's decisions.
//!
//! Numeric telemetry is held in fixed point, as whole thousandths of the unit the
//! game reports (a health of 94.995 % is `94995`).

use vstd::prelude::*;
use crate::configuration_manager::ApplicationSettings;
use crate::message_passing::{
    log_text, push_log, push_report, sans_logs, CommandToAsyncTasks, UpdateFromAsyncTasks,
};

verus! {

/// Health changes of at most this many thousandths of a percent are noise.
pub const HEALTH_DROP_EPSILON_MILLI_PERCENT: i32 = 10;

/// One telemetry snapshot; every field may be absent.
#[derive(Clone, Debug)]
pub struct WarThunderIndicators {
    pub vehicle_type: Option<String>,
    pub speed_milli: Option<i64>,
    pub altitude_10k_milli: Option<i64>,
    pub rpm_throttle_milli: Option<i64>,
    pub health_milli_percent: Option<i32>,
}

/// Whether health fell by more than the noise threshold between two readings.
pub open spec fn health_dropped(previous: Option<i32>, current: Option<i32>) -> bool {
    match (previous, current) {
        (Some(p), Some(c)) => p - c > HEALTH_DROP_EPSILON_MILLI_PERCENT,
        _ => false,
    }
}

/// Executable form of [`health_dropped`].
pub fn is_health_drop(previous: Option<i32>, current: Option<i32>) -> (r: bool)
    ensures
        r == health_dropped(previous, current),
{
    match (previous, current) {
        (Some(p), Some(c)) => (p as i64) - (c as i64) > HEALTH_DROP_EPSILON_MILLI_PERCENT as i64,
        _ => false,
    }
}


/// How one telemetry fetch ended.
#[derive(Clone, Debug)]
pub enum FetchOutcome {
    /// No answer: the game is not running or its endpoint is off.
    Unreachable,
    /// An answer with a status other than success.
    BadStatus(u16),
    /// A well-formed snapshot.
    Parsed(WarThunderIndicators),
    /// An answer whose body could not be read as a snapshot.
    Malformed(String),
}

/// The telemetry poller's state: the delay between cycles, whether polling is
/// on, and the health seen at the last successful fetch.
#[derive(Clone, Copy, Debug, PartialEq, Eq, Structural)]
pub struct TelemetryPoller {
    pub polling_interval_milliseconds: u64,
    pub active: bool,
    pub last_health_milli_percent: Option<i32>,
}

impl TelemetryPoller {
    pub open spec fn after_command(self, cmd: CommandToAsyncTasks) -> Self {
        match cmd {
            CommandToAsyncTasks::UpdateApplicationSettings(s) => TelemetryPoller {
                polling_interval_milliseconds: s.polling_interval_milliseconds,
                ..self
            },
            CommandToAsyncTasks::StartProcessing => TelemetryPoller { active: true, ..self },
            CommandToAsyncTasks::StopProcessing => TelemetryPoller { active: false, ..self },
            _ => self,
        }
    }

    pub open spec fn command_reports(self, cmd: CommandToAsyncTasks) -> Seq<UpdateFromAsyncTasks> {
        match cmd {
            CommandToAsyncTasks::StopProcessing => seq![
                UpdateFromAsyncTasks::WarThunderConnectionStatus(false),
            ],
            _ => Seq::empty(),
        }
    }

    /// The number of log lines a command adds: one for each command the poller
    /// acts on.
    pub open spec fn command_log_lines(self, cmd: CommandToAsyncTasks) -> nat {
        match cmd {
            CommandToAsyncTasks::UpdateApplicationSettings(_) => 1,
            CommandToAsyncTasks::StartProcessing => 1,
            CommandToAsyncTasks::StopProcessing => 1,
            _ => 0,
        }
    }

    pub open spec fn after_fetch(self, outcome: FetchOutcome) -> Self {
        match outcome {
            FetchOutcome::Parsed(ind) => TelemetryPoller {
                last_health_milli_percent: ind.health_milli_percent,
                ..self
            },
            _ => self,
        }
    }

    /// A successful fetch reports the game as reachable, then the full snapshot;
    /// any other outcome reports it as unreachable.
    pub open spec fn fetch_reports(self, outcome: FetchOutcome) -> Seq<UpdateFromAsyncTasks> {
        match outcome {
            FetchOutcome::Parsed(ind) => seq![
                UpdateFromAsyncTasks::WarThunderConnectionStatus(true),
                UpdateFromAsyncTasks::WarThunderIndicatorsUpdate(ind),
            ],
            _ => seq![UpdateFromAsyncTasks::WarThunderConnectionStatus(false)],
        }
    }

    /// The number of log lines a fetch adds: one for a malformed answer, one for a
    /// fall in health.
    pub open spec fn fetch_log_lines(self, outcome: FetchOutcome) -> nat {
        match outcome {
            FetchOutcome::Parsed(ind) => if health_dropped(
                self.last_health_milli_percent,
                ind.health_milli_percent,
            ) {
                1
            } else {
                0
            },
            FetchOutcome::Malformed(_) => 1,
            _ => 0,
        }
    }

    /// A poller that polls every `polling_interval_milliseconds` and has seen nothing.
    pub fn new(polling_interval_milliseconds: u64) -> (r: Self)
        ensures
            r.polling_interval_milliseconds == polling_interval_milliseconds,
            r.active,
            r.last_health_milli_percent is None,
    {
        TelemetryPoller { polling_interval_milliseconds, active: true, last_health_milli_percent: None }
    }

    /// Whether this cycle fetches telemetry.
    pub fn should_fetch(&self) -> (r: bool)
        ensures
            r == self.active,
    {
        self.active
    }

    /// The pause before the next cycle.
    pub fn next_delay_milliseconds(&self) -> (r: u64)
        ensures
            r == self.polling_interval_milliseconds,
    {
        self.polling_interval_milliseconds
    }

    /// Acts on one command from the coordinator.
    pub fn handle_command(&mut self, cmd: CommandToAsyncTasks) -> (r: Vec<UpdateFromAsyncTasks>)
        ensures
            *final(self) == old(self).after_command(cmd),
            sans_logs(r@) == old(self).command_reports(cmd),
            r@.len() == old(self).command_reports(cmd).len() + old(self).command_log_lines(cmd),
            cmd is StopProcessing ==> r@[0] is LogMessage && r@[1]
                == UpdateFromAsyncTasks::WarThunderConnectionStatus(false),
    {
        let ghost g_cmd = cmd;
        let mut updates: Vec<UpdateFromAsyncTasks> = Vec::new();
        assert(sans_logs(updates@) =~= Seq::empty());
        match cmd {
            CommandToAsyncTasks::UpdateApplicationSettings(s) => {
                self.polling_interval_milliseconds = s.polling_interval_milliseconds;
                push_log(&mut updates, log_text("Telemetry polling interval changed (ms): ", s.polling_interval_milliseconds.to_string().as_str()));
            },
            CommandToAsyncTasks::StartProcessing => {
                self.active = true;
                push_log(&mut updates, String::from_str("Telemetry polling started."));
            },
            CommandToAsyncTasks::StopProcessing => {
                self.active = false;
                push_log(&mut updates, String::from_str("Telemetry polling stopped."));
                push_report(&mut updates, UpdateFromAsyncTasks::WarThunderConnectionStatus(false));
                assert(sans_logs(updates@) =~= seq![UpdateFromAsyncTasks::WarThunderConnectionStatus(false)]);
            },
            _ => {},
        }
        updates
    }

    /// Acts on the outcome of one telemetry fetch.
    pub fn handle_fetch(&mut self, outcome: FetchOutcome) -> (r: Vec<UpdateFromAsyncTasks>)
        ensures
            *final(self) == old(self).after_fetch(outcome),
            sans_logs(r@) == old(self).fetch_reports(outcome),
            r@.len() == old(self).fetch_reports(outcome).len() + old(self).fetch_log_lines(outcome),
    {
        let ghost g_outcome = outcome;
        let mut updates: Vec<UpdateFromAsyncTasks> = Vec::new();
        assert(sans_logs(updates@) =~= Seq::empty());
        match outcome {
            FetchOutcome::Parsed(ind) => {
                let ghost g_ind = ind;
                push_report(&mut updates, UpdateFromAsyncTasks::WarThunderConnectionStatus(true));
                if is_health_drop(self.last_health_milli_percent, ind.health_milli_percent) {
                    let mut text = String::from_str("Damage detected; health (thousandths of a percent): ");
                    match ind.health_milli_percent {
                        Some(h) => text.append(h.to_string().as_str()),
                        None => {},
                    }
                    push_log(&mut updates, text);
                }
                self.last_health_milli_percent = ind.health_milli_percent;
                push_report(&mut updates, UpdateFromAsyncTasks::WarThunderIndicatorsUpdate(ind));
                assert(sans_logs(updates@) =~= seq![
                    UpdateFromAsyncTasks::WarThunderConnectionStatus(true),
                    UpdateFromAsyncTasks::WarThunderIndicatorsUpdate(g_ind),
                ]);
            },
            FetchOutcome::Malformed(e) => {
                push_log(&mut updates, log_text("Telemetry answer could not be read: ", e.as_str()));
                push_report(&mut updates, UpdateFromAsyncTasks::WarThunderConnectionStatus(false));
                assert(sans_logs(updates@) =~= seq![UpdateFromAsyncTasks::WarThunderConnectionStatus(false)]);
            },
            _ => {
                push_report(&mut updates, UpdateFromAsyncTasks::WarThunderConnectionStatus(false));
                assert(sans_logs(updates@) =~= seq![UpdateFromAsyncTasks::WarThunderConnectionStatus(false)]);
            },
        }
        updates
    }
}

/// A new polling interval takes effect at the next pause, and fetches do not
/// undo it.
pub proof fn lemma_new_interval_applies_next_cycle(
    p: TelemetryPoller,
    s: ApplicationSettings,
    outcome: FetchOutcome,
)
    ensures
        p.after_command(CommandToAsyncTasks::UpdateApplicationSettings(s)).polling_interval_milliseconds
            == s.polling_interval_milliseconds,
        p.after_command(CommandToAsyncTasks::UpdateApplicationSettings(s)).after_fetch(
            outcome,
        ).polling_interval_milliseconds == s.polling_interval_milliseconds,
{
}

/// A failed fetch followed by a successful one reports the game unreachable, then
/// reachable, then delivers the new snapshot.
pub proof fn lemma_failure_then_success(
    p: TelemetryPoller,
    failure: FetchOutcome,
    ind: WarThunderIndicators,
)
    requires
        !(failure is Parsed),
    ensures
        p.fetch_reports(failure) == seq![UpdateFromAsyncTasks::WarThunderConnectionStatus(false)],
        p.after_fetch(failure).fetch_reports(FetchOutcome::Parsed(ind)) == seq![
            UpdateFromAsyncTasks::WarThunderConnectionStatus(true),
            UpdateFromAsyncTasks::WarThunderIndicatorsUpdate(ind),
        ],
{
}

} // verus!
