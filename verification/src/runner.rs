use vstd::prelude::*;

use crate::errors::{ComposeOp, RunError};
use crate::flag::ShutdownFlag;
use crate::guard::ComposeGuard;
use crate::health::{spec_gate_decision, HealthGate, HealthStep};
use crate::ports::{check_ports_available, spec_occupied, spec_required_ports};

verus! {

/// Progress of one orchestration run through its stage sequence.
#[derive(Clone, Copy, PartialEq, Eq, Structural, Debug)]
pub enum RunState {
    Idle,
    Validating,
    PortChecking,
    Provisioning,
    StackStarting,
    HealthGating,
    Running,
    TearingDown,
    Terminated,
}

/// One orchestration run.
///
/// The runner owns the run's state machine and decides; the driver performs
/// each external operation (the inspect call, the bind probes, the filesystem
/// writes, the compose invocations, the health requests) and reports its
/// outcome back. Entering `StackStarting` is the one directive to invoke the
/// compose engine's `up`; a `true` answer from `teardown_decision` is the one
/// directive to invoke its `down`. The ghost fields `ups` and `downs` count
/// those directives, so the guarantees about them are stated over every
/// possible run, not over one trace.
pub struct Runner {
    pub state: RunState,
    pub target: String,
    /// Root of the provisioned workspace, once `Provisioning` succeeded.
    pub workspace: Option<String>,
    /// Armed over the running stack once `StackStarting` succeeded.
    pub guard: Option<ComposeGuard>,
    pub gate: HealthGate,
    /// The primary failure that ended the run, if any.
    pub failure: Option<RunError>,
    /// A teardown problem, recorded beside the primary failure, never in its
    /// place.
    pub secondary: Option<RunError>,
    pub signals_installed: bool,
    pub down_requested: bool,
    /// How many times the run has directed a compose `up`.
    pub ups: Ghost<int>,
    /// How many times the run has directed a compose `down`.
    pub downs: Ghost<int>,
}

impl Runner {
    /// Stages before anything external was started or written.
    pub open spec fn in_early_stage(self) -> bool {
        ||| self.state is Idle
        ||| self.state is Validating
        ||| self.state is PortChecking
        ||| self.state is Provisioning
    }

    /// Whether `StackStarting` succeeded in this run.
    pub open spec fn stack_started(self) -> bool {
        self.guard is Some
    }

    /// The run's invariant, established by `new` and preserved by every
    /// step. It carries the two lifecycle guarantees: no `up` directive
    /// before the preconditions passed, and exactly one `down` directive
    /// once the stack started, by the time the run terminates.
    pub open spec fn inv(self) -> bool {
        &&& 0 <= self.ups@ <= 1
        &&& 0 <= self.downs@ <= 1
        &&& self.downs@ <= self.ups@
        &&& (self.in_early_stage() ==> self.ups@ == 0 && self.guard is None
            && self.workspace is None && self.failure is None && self.secondary is None
            && !self.down_requested)
        &&& (self.guard is None ==> self.downs@ == 0)
        &&& (self.guard matches Some(g) ==> self.ups@ == 1
            && (self.workspace matches Some(w) && g.spec_root() == w@)
            && self.downs@ == (if g.spec_active() { 0int } else { 1int }))
        &&& (self.state is StackStarting ==> self.ups@ == 1 && self.guard is None
            && self.workspace is Some && self.failure is None && !self.down_requested)
        &&& ((self.in_early_stage() || self.state is StackStarting)
            ==> !self.signals_installed)
        &&& ((self.state is HealthGating || self.state is Running) ==> (
            self.guard matches Some(g) && g.spec_active()) && self.failure is None
            && !self.down_requested)
        &&& (self.state is HealthGating ==> self.gate.wf() && !self.gate.finished)
        &&& (self.state is Running ==> self.signals_installed && self.gate.finished)
        &&& ((self.failure matches Some(e) && e matches RunError::PortConflict(_))
            ==> self.ups@ == 0)
        &&& (self.down_requested ==> (self.guard matches Some(g) ==> !g.spec_active()))
        &&& (!self.down_requested ==> (self.guard matches Some(g) ==> g.spec_active()))
        &&& (self.down_requested ==> self.state is TearingDown || self.state is Terminated)
        &&& (self.state is Terminated ==> self.down_requested || self.guard is None)
    }

    /// A fresh run over the given target, not yet begun.
    pub fn new(target: String) -> (r: Runner)
        ensures
            r.inv(),
            r.state is Idle,
            r.target@ == target@,
            r.failure is None,
            r.secondary is None,
            r.workspace is None,
            !r.stack_started(),
            r.ups@ == 0,
            r.downs@ == 0,
    {
        Runner {
            state: RunState::Idle,
            target,
            workspace: None,
            guard: None,
            gate: HealthGate::new(),
            failure: None,
            secondary: None,
            signals_installed: false,
            down_requested: false,
            ups: Ghost(0),
            downs: Ghost(0),
        }
    }

    /// Begin the run: the driver must now ask the container runtime to
    /// inspect the target.
    pub fn begin(&mut self)
        requires
            old(self).inv(),
            old(self).state is Idle,
        ensures
            final(self).inv(),
            final(self).state is Validating,
            final(self).target == old(self).target,
            final(self).failure is None,
            final(self).ups@ == 0,
            final(self).downs@ == 0,
    {
        self.state = RunState::Validating;
    }

    /// Record whether the runtime's inspect call exited successfully.
    /// Existence of the target is a prerequisite, not a data dependency: a
    /// failed inspect ends the run at once, with nothing to tear down.
    pub fn on_validation(&mut self, inspect_ok: bool)
        requires
            old(self).inv(),
            old(self).state is Validating,
        ensures
            final(self).inv(),
            inspect_ok ==> final(self).state is PortChecking && final(self).failure is None,
            !inspect_ok ==> final(self).state is Terminated
                && final(self).failure == Some(RunError::TargetNotFound),
            final(self).target == old(self).target,
            final(self).workspace is None,
            final(self).ups@ == 0,
            final(self).downs@ == 0,
    {
        if inspect_ok {
            self.state = RunState::PortChecking;
        } else {
            self.failure = Some(RunError::TargetNotFound);
            self.state = RunState::Terminated;
        }
    }

    /// Record the bind-probe outcome of each required port (`true` meaning
    /// free). If any port is occupied the run ends at once, naming exactly
    /// the occupied ports; no workspace is created and no stack is started.
    pub fn on_ports_probed(&mut self, free: &Vec<bool>)
        requires
            old(self).inv(),
            old(self).state is PortChecking,
            free@.len() == spec_required_ports().len(),
        ensures
            final(self).inv(),
            (forall|i: int| 0 <= i < free@.len() ==> free@[i]) ==> (
                final(self).state is Provisioning && final(self).failure is None),
            !(forall|i: int| 0 <= i < free@.len() ==> free@[i]) ==> (
                final(self).state is Terminated
                && (final(self).failure matches Some(e) && e matches RunError::PortConflict(ps)
                    && ps@ == spec_occupied(spec_required_ports(), free@))),
            final(self).target == old(self).target,
            final(self).workspace is None,
            final(self).ups@ == 0,
            final(self).downs@ == 0,
    {
        match check_ports_available(free) {
            Ok(()) => {
                self.state = RunState::Provisioning;
            },
            Err(e) => {
                self.failure = Some(e);
                self.state = RunState::Terminated;
            },
        }
    }

    /// Record the outcome of materializing the workspace: its root path on
    /// success, or nothing on a filesystem error. Entering `StackStarting`
    /// directs the driver to invoke the compose engine's `up` on that root.
    pub fn on_provisioned(&mut self, root: Option<String>)
        requires
            old(self).inv(),
            old(self).state is Provisioning,
        ensures
            final(self).inv(),
            root matches Some(p) ==> (final(self).state is StackStarting
                && (final(self).workspace matches Some(w) && w@ == p@)
                && final(self).failure is None && final(self).ups@ == 1),
            root is None ==> (final(self).state is Terminated
                && final(self).failure == Some(RunError::WorkspaceIo)
                && final(self).workspace is None && final(self).ups@ == 0),
            final(self).target == old(self).target,
            final(self).downs@ == 0,
    {
        match root {
            Some(p) => {
                self.workspace = Some(p);
                self.ups = Ghost(self.ups@ + 1);
                self.state = RunState::StackStarting;
            },
            None => {
                self.failure = Some(RunError::WorkspaceIo);
                self.state = RunState::Terminated;
            },
        }
    }

    /// Record the outcome of the compose `up` invocation: `None` on success,
    /// or the stderr text it produced. On success the teardown guard is
    /// armed over the workspace, so every later exit owes one `down`. On
    /// failure the stack never started, so no `down` will be directed, but
    /// the run still passes through `TearingDown` to remove the workspace.
    pub fn on_stack_start(&mut self, error: Option<String>)
        requires
            old(self).inv(),
            old(self).state is StackStarting,
        ensures
            final(self).inv(),
            error is None ==> (final(self).state is HealthGating
                && (final(self).guard matches Some(g) && g.spec_active()
                    && (old(self).workspace matches Some(w) && g.spec_root() == w@))
                && final(self).failure is None
                && final(self).gate.attempts == 0
                && !final(self).signals_installed),
            error matches Some(msg) ==> (final(self).state is TearingDown
                && (final(self).failure matches Some(e)
                    && e matches RunError::ComposeFailure(op, m)
                    && op is Up && m@ == msg@)
                && final(self).guard is None && final(self).downs@ == 0),
            final(self).target == old(self).target,
            final(self).workspace == old(self).workspace,
            final(self).ups@ == old(self).ups@,
    {
        match error {
            Some(msg) => {
                self.failure = Some(RunError::ComposeFailure(ComposeOp::Up, msg));
                self.state = RunState::TearingDown;
            },
            None => {
                let root: String = match &self.workspace {
                    Some(p) => p.clone(),
                    // Never taken: in `StackStarting` the workspace is provisioned.
                    None => String::new(),
                };
                self.guard = Some(ComposeGuard::new(root));
                self.gate = HealthGate::new();
                self.state = RunState::HealthGating;
            },
        }
    }

    /// Record whether the process-wide interrupt handler was installed. The
    /// handler is installed right after the stack starts; if installing it
    /// fails the run cannot wait safely, so it ends — through teardown,
    /// since the guard is already armed.
    pub fn on_signal_setup(&mut self, ok: bool)
        requires
            old(self).inv(),
            old(self).state is HealthGating,
            !old(self).signals_installed,
        ensures
            final(self).inv(),
            ok ==> (final(self).state is HealthGating && final(self).signals_installed
                && final(self).failure is None),
            !ok ==> (final(self).state is TearingDown
                && final(self).failure == Some(RunError::SignalSetupFailure)),
            final(self).target == old(self).target,
            final(self).workspace == old(self).workspace,
            final(self).guard == old(self).guard,
            final(self).gate == old(self).gate,
            final(self).ups@ == old(self).ups@,
            final(self).downs@ == old(self).downs@,
    {
        if ok {
            self.signals_installed = true;
        } else {
            self.failure = Some(RunError::SignalSetupFailure);
            self.state = RunState::TearingDown;
        }
    }

    /// Record one health-probe outcome and answer what the driver must do:
    /// probe again after the fixed delay, move on to the interactive wait,
    /// or give up. Exhausting the budget fails the run with `HealthTimeout`
    /// — through teardown, since the guard is armed.
    pub fn on_health_probe(&mut self, healthy: bool) -> (step: HealthStep)
        requires
            old(self).inv(),
            old(self).state is HealthGating,
            old(self).signals_installed,
        ensures
            final(self).inv(),
            step == spec_gate_decision(old(self).gate.attempts as nat, healthy),
            final(self).gate.attempts == old(self).gate.attempts + 1,
            final(self).gate.retries == old(self).gate.retries
                + (if step is Retry { 1int } else { 0int }),
            step is Ready ==> final(self).state is Running && final(self).failure is None,
            step is Retry ==> final(self).state is HealthGating && final(self).failure is None,
            step is Timeout ==> final(self).state is TearingDown
                && final(self).failure == Some(RunError::HealthTimeout),
            final(self).target == old(self).target,
            final(self).workspace == old(self).workspace,
            final(self).guard == old(self).guard,
            final(self).signals_installed == old(self).signals_installed,
            final(self).ups@ == old(self).ups@,
            final(self).downs@ == old(self).downs@,
    {
        let step = self.gate.record_probe(healthy);
        match step {
            HealthStep::Ready => {
                self.state = RunState::Running;
            },
            HealthStep::Retry => {},
            HealthStep::Timeout => {
                self.failure = Some(RunError::HealthTimeout);
                self.state = RunState::TearingDown;
            },
        }
        step
    }

    /// One tick of the interactive wait: the driver sleeps the polling
    /// interval and hands over the interrupt flag to consult. The run leaves
    /// `Running` exactly when the flag was seen set, and then owes teardown.
    pub fn on_poll(&mut self, flag: &ShutdownFlag) -> (stop: bool)
        requires
            old(self).inv(),
            old(self).state is Running,
        ensures
            final(self).inv(),
            stop == flag.set,
            flag.set ==> final(self).state is TearingDown && final(self).failure is None,
            !flag.set ==> *final(self) == *old(self),
            final(self).target == old(self).target,
            final(self).workspace == old(self).workspace,
            final(self).guard == old(self).guard,
            final(self).ups@ == old(self).ups@,
            final(self).downs@ == old(self).downs@,
    {
        let interrupted = flag.is_set();
        if interrupted {
            self.state = RunState::TearingDown;
        }
        interrupted
    }

    /// The teardown decision, taken once per run: answers whether the driver
    /// must now invoke the compose engine's `down` on the workspace. It
    /// answers `true` exactly when the guard is armed and still active — the
    /// stack started and no `down` was directed yet — and disarms it, so the
    /// stop operation is directed at most once however the run ended.
    pub fn teardown_decision(&mut self) -> (run_down: bool)
        requires
            old(self).inv(),
            old(self).state is TearingDown,
            !old(self).down_requested,
        ensures
            final(self).inv(),
            final(self).state is TearingDown,
            final(self).down_requested,
            run_down == (old(self).guard matches Some(g) && g.spec_active()),
            run_down == old(self).stack_started(),
            final(self).downs@ == old(self).downs@ + (if run_down { 1int } else { 0int }),
            run_down ==> final(self).downs@ == 1,
            final(self).failure == old(self).failure,
            final(self).secondary == old(self).secondary,
            final(self).target == old(self).target,
            final(self).workspace == old(self).workspace,
            final(self).ups@ == old(self).ups@,
            final(self).stack_started() == old(self).stack_started(),
    {
        let run_down: bool = match &mut self.guard {
            Some(g) => g.cleanup(),
            None => false,
        };
        if run_down {
            self.downs = Ghost(self.downs@ + 1);
        }
        self.down_requested = true;
        run_down
    }

    /// Record how teardown went: the stderr text of a failed `down`
    /// invocation, or `None` when nothing failed. A teardown problem is
    /// recorded as a secondary note and never replaces the primary failure:
    /// the caller still sees the root cause of the run's end.
    pub fn on_teardown_result(&mut self, down_error: Option<String>)
        requires
            old(self).inv(),
            old(self).state is TearingDown,
            old(self).down_requested,
        ensures
            final(self).inv(),
            final(self).state is Terminated,
            final(self).failure == old(self).failure,
            down_error matches Some(msg) ==> (final(self).secondary matches Some(e)
                && e matches RunError::TeardownFailure(op, m) && op is Down && m@ == msg@),
            down_error is None ==> final(self).secondary == old(self).secondary,
            final(self).target == old(self).target,
            final(self).workspace == old(self).workspace,
            final(self).guard == old(self).guard,
            final(self).ups@ == old(self).ups@,
            final(self).downs@ == old(self).downs@,
            final(self).stack_started() == old(self).stack_started(),
    {
        match down_error {
            Some(msg) => {
                self.secondary = Some(RunError::TeardownFailure(ComposeOp::Down, msg));
            },
            None => {},
        }
        self.state = RunState::Terminated;
    }

    /// The stage the run is in.
    pub fn current_state(&self) -> (s: RunState)
        ensures
            s == self.state,
    {
        self.state
    }

    /// The primary failure that ended the run, if any.
    pub fn primary_failure(&self) -> (r: &Option<RunError>)
        ensures
            *r == self.failure,
    {
        &self.failure
    }

    /// The teardown note recorded beside the primary failure, if any.
    pub fn secondary_failure(&self) -> (r: &Option<RunError>)
        ensures
            *r == self.secondary,
    {
        &self.secondary
    }

    /// The provisioned workspace root, if the run got that far.
    pub fn workspace_root(&self) -> (r: &Option<String>)
        ensures
            *r == self.workspace,
    {
        &self.workspace
    }

    /// Whether the run has reached its final state.
    pub fn is_terminated(&self) -> (r: bool)
        ensures
            r == (self.state is Terminated),
    {
        match self.state {
            RunState::Terminated => true,
            _ => false,
        }
    }

    /// How many health probes the run has recorded.
    pub fn health_attempts(&self) -> (n: u64)
        ensures
            n == self.gate.attempts,
    {
        self.gate.attempts
    }

    /// Whether a terminated run ended cleanly.
    pub fn succeeded(&self) -> (r: bool)
        requires
            self.state is Terminated,
        ensures
            r == (self.failure is None),
    {
        match &self.failure {
            None => true,
            Some(_) => false,
        }
    }
}

/// A run that failed its port check never directed a compose `up`: nothing
/// was started before the precondition failed.
pub proof fn lemma_port_conflict_no_up(r: Runner)
    requires
        r.inv(),
        r.failure matches Some(e) && e matches RunError::PortConflict(_),
    ensures
        r.ups@ == 0,
{
}

/// However a run goes, it directs the compose `down` at most once.
pub proof fn lemma_down_at_most_once(r: Runner)
    requires
        r.inv(),
    ensures
        r.downs@ <= 1,
{
}

/// A terminated run whose `StackStarting` succeeded directed the compose
/// `down` exactly once, whichever later stage failed and however shutdown
/// was triggered.
pub proof fn lemma_terminated_down_exactly_once(r: Runner)
    requires
        r.inv(),
        r.stack_started(),
        r.state is Terminated,
    ensures
        r.downs@ == 1,
{
}

/// A run that never started the stack never directs a `down` at all.
pub proof fn lemma_no_stack_no_down(r: Runner)
    requires
        r.inv(),
        !r.stack_started(),
    ensures
        r.downs@ == 0,
{
}

} // verus!
