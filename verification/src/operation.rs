//! Remote operations: what is run on a host, step by step, and when a host
//! is given up.

use vstd::prelude::*;
use vstd::string::*;

verus! {

/// The user as whom the agent logs in on every host.
pub const REMOTE_USER: &'static str = "root";

/// The port of the remote shell on every host.
pub const REMOTE_PORT: u16 = 22;

/// The seconds that one step on one host may take during a sweep.
pub const HOST_TIMEOUT_SECONDS: u64 = 5;

/// An operation that the fleet executor runs on each host of a sweep.
#[derive(Debug)]
pub enum RemoteOperation {
    /// Collect the host's telemetry.
    Probe,
    /// Install the agent bundle for `address` in the given `version`.
    Deploy { version: String, address: String },
    /// Reboot the host.
    Reboot,
    /// Restart the prover service.
    RestartService,
}

/// The mathematical content of a [`RemoteOperation`].
pub ghost enum OperationModel {
    Probe,
    Deploy { version: Seq<char>, address: Seq<char> },
    Reboot,
    RestartService,
}

impl View for RemoteOperation {
    type V = OperationModel;

    open spec fn view(&self) -> OperationModel {
        match self {
            RemoteOperation::Probe => OperationModel::Probe,
            RemoteOperation::Deploy { version, address } => OperationModel::Deploy {
                version: version@,
                address: address@,
            },
            RemoteOperation::Reboot => OperationModel::Reboot,
            RemoteOperation::RestartService => OperationModel::RestartService,
        }
    }
}

/// One step of an operation on one host.
#[derive(Debug)]
pub enum RemoteStep {
    /// Copy the file `local` to the path `remote` on the host.
    Transfer { local: String, remote: String },
    /// Run `command` in the host's shell.
    Run { command: String },
}

/// The mathematical content of a [`RemoteStep`].
pub ghost enum StepModel {
    Transfer { local: Seq<char>, remote: Seq<char> },
    Run { command: Seq<char> },
}

impl View for RemoteStep {
    type V = StepModel;

    open spec fn view(&self) -> StepModel {
        match self {
            RemoteStep::Transfer { local, remote } => StepModel::Transfer {
                local: local@,
                remote: remote@,
            },
            RemoteStep::Run { command } => StepModel::Run { command: command@ },
        }
    }
}

/// The command that installs `version` for `address`.
pub open spec fn install_command_of(version: Seq<char>, address: Seq<char>) -> Seq<char> {
    "/opt/res/machine/zk-ins.sh "@ + version + " "@ + address
}

/// The steps of an operation, in the order in which they run. A deployment
/// transfers the bundle, unpacks it and runs the installer; every other
/// operation is a single command.
pub open spec fn steps_of(operation: OperationModel) -> Seq<StepModel> {
    match operation {
        OperationModel::Probe => seq![
            StepModel::Run { command: "/opt/omni-gpu-agent/collect.sh"@ },
        ],
        OperationModel::Deploy { version, address } => seq![
            StepModel::Transfer { local: "./machine.tgz"@, remote: "/opt/machine.tgz"@ },
            StepModel::Run { command: "tar -xvzf /opt/machine.tgz -C /opt/"@ },
            StepModel::Run { command: install_command_of(version, address) },
        ],
        OperationModel::Reboot => seq![StepModel::Run { command: "reboot"@ }],
        OperationModel::RestartService => seq![
            StepModel::Run { command: "systemctl restart aleo.service"@ },
        ],
    }
}

/// Builds the command that installs `version` for `address`.
pub fn install_command(version: &str, address: &str) -> (command: String)
    ensures
        command@ == install_command_of(version@, address@),
{
    let mut command = String::from_str("/opt/res/machine/zk-ins.sh ");
    command.append(version);
    command.append(" ");
    command.append(address);
    command
}

fn run_step(command: &str) -> (step: RemoteStep)
    ensures
        step@ == (StepModel::Run { command: command@ }),
{
    RemoteStep::Run { command: String::from_str(command) }
}

impl RemoteOperation {
    /// The steps of the operation, in the order in which they run.
    pub fn steps(&self) -> (steps: Vec<RemoteStep>)
        ensures
            steps.len() == steps_of(self@).len(),
            forall|i: int| 0 <= i < steps.len() ==> #[trigger] steps[i]@ == steps_of(self@)[i],
    {
        let mut steps: Vec<RemoteStep> = Vec::new();
        match self {
            RemoteOperation::Probe => {
                steps.push(run_step("/opt/omni-gpu-agent/collect.sh"));
            },
            RemoteOperation::Deploy { version, address } => {
                steps.push(
                    RemoteStep::Transfer {
                        local: String::from_str("./machine.tgz"),
                        remote: String::from_str("/opt/machine.tgz"),
                    },
                );
                steps.push(run_step("tar -xvzf /opt/machine.tgz -C /opt/"));
                let install = install_command(version.as_str(), address.as_str());
                steps.push(RemoteStep::Run { command: install });
            },
            RemoteOperation::Reboot => {
                steps.push(run_step("reboot"));
            },
            RemoteOperation::RestartService => {
                steps.push(run_step("systemctl restart aleo.service"));
            },
        }
        steps
    }
}

/// What to do next for a host.
#[derive(Clone, Copy, Debug, PartialEq, Eq, Structural)]
pub enum RunDecision {
    /// Run the step with this index.
    Execute(usize),
    /// Every step succeeded: the host counts as a success.
    Succeeded,
    /// A step failed: the host is dropped.
    Dropped,
}

/// The progress of one operation on one host: `done` of `total` steps have
/// succeeded, or one has failed.
#[derive(Clone, Copy, Debug, PartialEq, Eq, Structural)]
pub struct HostRun {
    pub total: usize,
    pub done: usize,
    pub failed: bool,
}

impl HostRun {
    /// What to do next: nothing more once a step has failed, else the next
    /// step, else nothing more because all are done.
    pub open spec fn decision_of(self) -> RunDecision {
        if self.failed {
            RunDecision::Dropped
        } else if self.done < self.total {
            RunDecision::Execute(self.done)
        } else {
            RunDecision::Succeeded
        }
    }

    /// The run after the step that was due ended with `ok`. Where no step
    /// was due, the run stays as it is.
    pub open spec fn recorded(self, ok: bool) -> HostRun {
        if self.failed || self.done >= self.total {
            self
        } else if ok {
            HostRun { total: self.total, done: (self.done + 1) as usize, failed: false }
        } else {
            HostRun { total: self.total, done: self.done, failed: true }
        }
    }

    /// The run of an operation of `total` steps, none of them tried yet.
    pub open spec fn start(total: usize) -> HostRun {
        HostRun { total, done: 0, failed: false }
    }

    /// Starts the run of an operation of `total` steps.
    pub fn new(total: usize) -> (run: HostRun)
        ensures
            run == HostRun::start(total),
    {
        HostRun { total, done: 0, failed: false }
    }

    /// Decides what to do next for the host.
    pub fn decision(&self) -> (d: RunDecision)
        ensures
            d == self.decision_of(),
    {
        if self.failed {
            RunDecision::Dropped
        } else if self.done < self.total {
            RunDecision::Execute(self.done)
        } else {
            RunDecision::Succeeded
        }
    }

    /// Records how the step that was due ended.
    pub fn record(&mut self, ok: bool)
        ensures
            *final(self) == old(self).recorded(ok),
    {
        if !self.failed && self.done < self.total {
            if ok {
                self.done = self.done + 1;
            } else {
                self.failed = true;
            }
        }
    }
}

/// The run after the steps that were due ended as `results` says, one after
/// the other.
pub open spec fn replay(total: usize, results: Seq<bool>) -> HostRun
    decreases results.len(),
{
    if results.len() == 0 {
        HostRun::start(total)
    } else {
        replay(total, results.drop_last()).recorded(results.last())
    }
}

/// A run that has failed stays failed, whatever is recorded.
pub proof fn failure_is_final(run: HostRun, ok: bool)
    requires
        run.failed,
    ensures
        run.recorded(ok) == run,
        run.decision_of() == RunDecision::Dropped,
{
}

proof fn replay_while_all_succeed(total: usize, results: Seq<bool>)
    requires
        results.len() <= total,
        forall|i: int| 0 <= i < results.len() ==> results[i],
    ensures
        replay(total, results) == (HostRun { total, done: results.len() as usize, failed: false }),
    decreases results.len(),
{
    if results.len() > 0 {
        replay_while_all_succeed(total, results.drop_last());
    }
}

proof fn replay_after_failure(total: usize, results: Seq<bool>, k: int)
    requires
        0 <= k < results.len(),
        k < total,
        !results[k],
        forall|i: int| 0 <= i < k ==> results[i],
    ensures
        replay(total, results) == (HostRun { total, done: k as usize, failed: true }),
    decreases results.len(),
{
    if results.len() == k + 1 {
        assert(results.drop_last() =~= results.take(k));
        replay_while_all_succeed(total, results.drop_last());
    } else {
        replay_after_failure(total, results.drop_last(), k);
    }
}

/// Once step `k` has failed, the host is dropped and no later step is ever
/// due: at no point of the run is a step after `k` decided upon.
pub proof fn failed_step_ends_the_run(total: usize, results: Seq<bool>, k: int, n: int)
    requires
        0 <= k < results.len(),
        k < total,
        !results[k],
        forall|i: int| 0 <= i < k ==> results[i],
        0 <= n <= results.len(),
    ensures
        replay(total, results).decision_of() == RunDecision::Dropped,
        replay(total, results.take(n)).decision_of() matches RunDecision::Execute(j) ==> j <= k,
        !(replay(total, results.take(n)).decision_of() is Succeeded),
{
    replay_after_failure(total, results, k);
    if n <= k {
        replay_while_all_succeed(total, results.take(n));
    } else {
        replay_after_failure(total, results.take(n), k);
    }
}

/// A host counts as a success exactly when every step of the operation has
/// succeeded.
pub proof fn success_needs_every_step(total: usize, results: Seq<bool>)
    requires
        results.len() == total,
    ensures
        replay(total, results).decision_of() is Succeeded <==> forall|i: int|
            0 <= i < results.len() ==> results[i],
{
    if forall|i: int| 0 <= i < results.len() ==> results[i] {
        replay_while_all_succeed(total, results);
    } else {
        let k = first_failure(results, 0);
        replay_after_failure(total, results, k);
    }
}

proof fn first_failure(results: Seq<bool>, from: int) -> (k: int)
    requires
        0 <= from <= results.len(),
        forall|i: int| 0 <= i < from ==> results[i],
        !(forall|i: int| 0 <= i < results.len() ==> results[i]),
    ensures
        0 <= k < results.len(),
        !results[k],
        forall|i: int| 0 <= i < k ==> results[i],
    decreases results.len() - from,
{
    if from < results.len() && !results[from] {
        from
    } else {
        first_failure(results, from + 1)
    }
}

/// A deployment whose transfer fails neither unpacks nor installs: after the
/// failure no step is due, and the host is dropped.
pub proof fn failed_transfer_skips_unpack_and_install(
    version: Seq<char>,
    address: Seq<char>,
    results: Seq<bool>,
    n: int,
)
    requires
        results.len() >= 1,
        !results[0],
        0 <= n <= results.len(),
    ensures
        steps_of(OperationModel::Deploy { version, address }).len() == 3,
        steps_of(OperationModel::Deploy { version, address })[0] is Transfer,
        replay(3, results).decision_of() == RunDecision::Dropped,
        replay(3, results.take(n)).decision_of() matches RunDecision::Execute(j) ==> j == 0,
{
    failed_step_ends_the_run(3, results, 0, n);
}

} // verus!
