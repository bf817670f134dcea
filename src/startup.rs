use vstd::prelude::*;

use crate::config::{
    LoggerConfig, LoggerError, active_sink_count, file_active, file_misconfigured, stdout_active,
};
use crate::level::LogLevel;
use crate::sink::{SinkTarget, disable_on_error, targets_file};

verus! {

/// What a startup builds: the active sinks, in dispatch order, and the
/// minimum level that each sink's layer lets through.
#[derive(Clone, Debug)]
pub struct StartupPlan {
    pub sinks: Vec<SinkTarget>,
    pub level: LogLevel,
}

/// `p` is the plan of a startup from `c`: the file sink first if it is
/// active, then standard output if it is active, and nothing else.
pub open spec fn plans_for(p: StartupPlan, c: LoggerConfig) -> bool {
    &&& p.level == c.trace_level
    &&& p.sinks@.len() == active_sink_count(c)
    &&& file_active(c) ==> targets_file(p.sinks@[0], c.file->0)
    &&& stdout_active(c) ==> p.sinks@[p.sinks@.len() - 1] is Stdout
}

/// What a startup with `sinks` active sinks returns once the exporter has
/// been tried: the number of guards handed to the caller, or the failure.
/// With no sink nothing is installed and the exporter is never built.
pub open spec fn startup_outcome(sinks: nat, exporter_ok: bool) -> Result<nat, LoggerError> {
    if sinks == 0 {
        Ok(0)
    } else if exporter_ok {
        Ok(sinks)
    } else {
        Err(LoggerError::OLTPInitFailed)
    }
}

impl LoggerConfig {
    /// Decides the sinks of a startup. Absent or disabled sinks are left out;
    /// an enabled file sink without a path aborts the startup.
    pub fn startup_plan(&self) -> (r: Result<StartupPlan, LoggerError>)
        ensures
            r is Ok <==> !file_misconfigured(*self),
            r matches Ok(p) ==> plans_for(p, *self),
            r matches Err(e) ==> e == LoggerError::NoFileName,
    {
        let file = match disable_on_error(self.file_sink()) {
            Ok(s) => s,
            Err(e) => return Err(e),
        };
        let stdout = match disable_on_error(self.stdout_sink()) {
            Ok(s) => s,
            Err(e) => return Err(e),
        };
        let mut sinks: Vec<SinkTarget> = Vec::new();
        match file {
            Some(t) => sinks.push(t),
            None => {},
        }
        match stdout {
            Some(t) => sinks.push(t),
            None => {},
        }
        Ok(StartupPlan { sinks, level: self.trace_level })
    }
}

impl StartupPlan {
    /// Whether a subscriber is installed, and so the exporter built: only
    /// when at least one sink is active.
    pub fn installs_subscriber(&self) -> (r: bool)
        ensures
            r == (self.sinks@.len() > 0),
    {
        self.sinks.len() > 0
    }

    /// Number of background writers, and so of guards, that the plan makes.
    pub fn guard_count(&self) -> (r: usize)
        ensures
            r == self.sinks@.len(),
    {
        self.sinks.len()
    }

    /// The result of the startup once the exporter has been tried: the
    /// number of guards handed back, or `OLTPInitFailed`.
    pub fn outcome(&self, exporter_ok: bool) -> (r: Result<usize, LoggerError>)
        ensures
            r matches Ok(n) ==> startup_outcome(self.sinks@.len(), exporter_ok) == Ok::<
                nat,
                LoggerError,
            >(n as nat),
            r matches Err(e) ==> startup_outcome(self.sinks@.len(), exporter_ok) == Err::<
                nat,
                LoggerError,
            >(e),
    {
        if self.sinks.len() == 0 {
            Ok(0)
        } else if exporter_ok {
            Ok(self.sinks.len())
        } else {
            Err(LoggerError::OLTPInitFailed)
        }
    }

    /// Whether an event of level `event` reaches the sinks of the plan.
    pub fn delivers(&self, event: LogLevel) -> (r: bool)
        ensures
            r == (self.sinks@.len() > 0 && event.severity() >= self.level.severity()),
    {
        self.sinks.len() > 0 && self.level.admits(event)
    }
}

/// With every sink absent or disabled, startup succeeds, builds no sink and
/// hands back no guard, whatever the exporter would do.
pub proof fn lemma_silent_startup(c: LoggerConfig, p: StartupPlan, exporter_ok: bool)
    requires
        c.file is None || !c.file->0.enabled,
        c.stdout is None || !c.stdout->0.enabled,
    ensures
        !file_misconfigured(c),
        active_sink_count(c) == 0,
        plans_for(p, c) ==> p.sinks@.len() == 0,
        startup_outcome(active_sink_count(c), exporter_ok) == Ok::<nat, LoggerError>(0),
{
}

/// An enabled file sink without a path fails the startup with `NoFileName`
/// before any sink is built.
pub proof fn lemma_missing_file_name(c: LoggerConfig)
    requires
        c.file is Some,
        c.file->0.enabled,
        c.file->0.log_file is None || c.file->0.log_file->0@.len() == 0,
    ensures
        file_misconfigured(c),
        !file_active(c),
{
}

/// Each active sink gets exactly one entry in the plan, and so one writer
/// and one guard: a startup whose exporter comes up hands back one guard
/// per active sink.
pub proof fn lemma_one_guard_per_sink(c: LoggerConfig, p: StartupPlan)
    requires
        plans_for(p, c),
    ensures
        p.sinks@.len() == active_sink_count(c),
        startup_outcome(p.sinks@.len(), true) == Ok::<nat, LoggerError>(active_sink_count(c)),
        file_active(c) && stdout_active(c) ==> p.sinks@[0] is File && p.sinks@[1] is Stdout,
        file_active(c) && !stdout_active(c) ==> p.sinks@.len() == 1 && p.sinks@[0] is File,
        !file_active(c) && stdout_active(c) ==> p.sinks@ =~= seq![SinkTarget::Stdout],
{
}

/// Once a sink is active, a failing exporter fails the whole startup, even
/// where every sink was configured correctly.
pub proof fn lemma_exporter_failure_aborts(c: LoggerConfig, p: StartupPlan)
    requires
        plans_for(p, c),
        active_sink_count(c) > 0,
    ensures
        startup_outcome(p.sinks@.len(), false) == Err::<nat, LoggerError>(LoggerError::OLTPInitFailed),
{
}

} // verus!
