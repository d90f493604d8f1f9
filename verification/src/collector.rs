//! The fleet executor's results: telemetry records, and the aggregate of a
//! sweep in which failed hosts are dropped.

use vstd::prelude::*;
use crate::error::AgentError;

verus! {

/// Telemetry of one GPU, as the host's collection script reports it.
#[derive(Debug, Clone)]
pub struct GpuInfo {
    pub index: String,
    pub name: String,
    pub power: String,
    pub temperature: String,
}

/// Prover throughput of one GPU, as the host's collection script reports it.
#[derive(Debug, Clone)]
pub struct ProverInfo {
    pub timestamp: String,
    pub gpu_index: String,
    pub one_min: String,
    pub five_min: String,
    pub fifteen_min: String,
    pub thirty_min: String,
    pub sixty_min: String,
}

/// The telemetry record of one host.
#[derive(Debug, Clone)]
pub struct MachineInfo {
    pub ip: String,
    pub gpu_info: Vec<GpuInfo>,
    pub prover_info: Vec<ProverInfo>,
}

impl Default for GpuInfo {
    fn default() -> (r: GpuInfo)
        ensures
            r.index@.len() == 0,
            r.name@.len() == 0,
            r.power@.len() == 0,
            r.temperature@.len() == 0,
    {
        GpuInfo {
            index: String::new(),
            name: String::new(),
            power: String::new(),
            temperature: String::new(),
        }
    }
}

impl Default for ProverInfo {
    fn default() -> (r: ProverInfo)
        ensures
            r.timestamp@.len() == 0,
            r.gpu_index@.len() == 0,
            r.one_min@.len() == 0,
            r.five_min@.len() == 0,
            r.fifteen_min@.len() == 0,
            r.thirty_min@.len() == 0,
            r.sixty_min@.len() == 0,
    {
        ProverInfo {
            timestamp: String::new(),
            gpu_index: String::new(),
            one_min: String::new(),
            five_min: String::new(),
            fifteen_min: String::new(),
            thirty_min: String::new(),
            sixty_min: String::new(),
        }
    }
}

impl Default for MachineInfo {
    fn default() -> (r: MachineInfo)
        ensures
            r.ip@.len() == 0,
            r.gpu_info@.len() == 0,
            r.prover_info@.len() == 0,
    {
        MachineInfo { ip: String::new(), gpu_info: Vec::new(), prover_info: Vec::new() }
    }
}

impl MachineInfo {
    /// The record of the host `ip` from what its collection script reported.
    /// `decoded` is the report, or `None` where it could not be read: the
    /// record is then empty but for the address. An address inside the
    /// report is not believed.
    pub fn located(ip: &str, decoded: Option<MachineInfo>) -> (r: MachineInfo)
        ensures
            r.ip@ == ip@,
            decoded matches Some(report) ==> r.gpu_info == report.gpu_info && r.prover_info
                == report.prover_info,
            decoded is None ==> r.gpu_info@.len() == 0 && r.prover_info@.len() == 0,
    {
        match decoded {
            Some(report) => MachineInfo {
                ip: ip.to_owned(),
                gpu_info: report.gpu_info,
                prover_info: report.prover_info,
            },
            None => MachineInfo { ip: ip.to_owned(), gpu_info: Vec::new(), prover_info: Vec::new() },
        }
    }
}

/// How an operation ended on one host.
#[derive(Debug)]
pub struct HostOutcome<T> {
    pub host: String,
    pub result: Result<T, AgentError>,
}

/// A host on which an operation succeeded, with what it returned.
#[derive(Debug)]
pub struct HostSuccess<T> {
    pub host: String,
    pub payload: T,
}

/// The aggregate of one sweep: the hosts that succeeded, in the order in
/// which they finished, and the addresses of those that were dropped.
#[derive(Debug)]
pub struct FleetResult<T> {
    pub successes: Vec<HostSuccess<T>>,
    pub dropped: Vec<String>,
}

/// Whether the operation succeeded on the host.
pub open spec fn succeeded<T>(outcome: HostOutcome<T>) -> bool {
    outcome.result is Ok
}

/// The successful outcomes, in their order, each as host and payload.
pub open spec fn successes_of<T>(outcomes: Seq<HostOutcome<T>>) -> Seq<(Seq<char>, T)> {
    outcomes.filter(|o: HostOutcome<T>| succeeded(o)).map_values(
        |o: HostOutcome<T>| (o.host@, o.result->Ok_0),
    )
}

/// The hosts of the failed outcomes, in their order.
pub open spec fn dropped_of<T>(outcomes: Seq<HostOutcome<T>>) -> Seq<Seq<char>> {
    outcomes.filter(|o: HostOutcome<T>| !succeeded(o)).map_values(|o: HostOutcome<T>| o.host@)
}

/// The hosts of all outcomes, in their order.
pub open spec fn hosts_of<T>(outcomes: Seq<HostOutcome<T>>) -> Seq<Seq<char>> {
    outcomes.map_values(|o: HostOutcome<T>| o.host@)
}

impl<T> FleetResult<T> {
    /// The successes, each as host and payload.
    pub open spec fn entries(&self) -> Seq<(Seq<char>, T)> {
        self.successes@.map_values(|s: HostSuccess<T>| (s.host@, s.payload))
    }

    /// The addresses of the dropped hosts.
    pub open spec fn dropped_hosts(&self) -> Seq<Seq<char>> {
        self.dropped@.map_values(|h: String| h@)
    }
}

proof fn successes_of_push<T>(outcomes: Seq<HostOutcome<T>>, next: HostOutcome<T>)
    ensures
        succeeded(next) ==> successes_of(outcomes.push(next)) == successes_of(outcomes).push(
            (next.host@, next.result->Ok_0),
        ) && dropped_of(outcomes.push(next)) == dropped_of(outcomes),
        !succeeded(next) ==> successes_of(outcomes.push(next)) == successes_of(outcomes)
            && dropped_of(outcomes.push(next)) == dropped_of(outcomes).push(next.host@),
{
    reveal(Seq::filter);
    let all = outcomes.push(next);
    assert(all.drop_last() =~= outcomes);
    let good = |o: HostOutcome<T>| succeeded(o);
    let bad = |o: HostOutcome<T>| !succeeded(o);
    let entry = |o: HostOutcome<T>| (o.host@, o.result->Ok_0);
    let host = |o: HostOutcome<T>| o.host@;
    if succeeded(next) {
        assert(all.filter(good) == outcomes.filter(good).push(next));
        assert(all.filter(bad) == outcomes.filter(bad));
        assert(outcomes.filter(good).push(next).map_values(entry) =~= outcomes.filter(
            good,
        ).map_values(entry).push(entry(next)));
    } else {
        assert(all.filter(good) == outcomes.filter(good));
        assert(all.filter(bad) == outcomes.filter(bad).push(next));
        assert(outcomes.filter(bad).push(next).map_values(host) =~= outcomes.filter(
            bad,
        ).map_values(host).push(host(next)));
    }
}

/// Aggregates the outcomes of a sweep, given in the order in which the hosts
/// finished: the successes are kept in that order, the failed hosts are
/// dropped and only their addresses remembered.
pub fn collect<T>(outcomes: Vec<HostOutcome<T>>) -> (fleet: FleetResult<T>)
    ensures
        fleet.entries() == successes_of(outcomes@),
        fleet.dropped_hosts() == dropped_of(outcomes@),
        fleet.successes.len() + fleet.dropped.len() == outcomes.len(),
{
    let ghost all = outcomes@;
    let mut successes: Vec<HostSuccess<T>> = Vec::new();
    let mut dropped: Vec<String> = Vec::new();
    proof {
        reveal(Seq::filter);
        assert(successes@.map_values(|s: HostSuccess<T>| (s.host@, s.payload)) =~= successes_of(
            all.take(0),
        ));
        assert(dropped@.map_values(|h: String| h@) =~= dropped_of(all.take(0)));
    }
    for outcome in it: outcomes
        invariant
            it.seq() == all,
            successes@.map_values(|s: HostSuccess<T>| (s.host@, s.payload)) == successes_of(
                all.take(it.index() as int),
            ),
            dropped@.map_values(|h: String| h@) == dropped_of(all.take(it.index() as int)),
    {
        proof {
            let i = it.index() as int;
            assert(all.take(i + 1) =~= all.take(i).push(outcome));
            successes_of_push(all.take(i), outcome);
        }
        let ghost before = successes@;
        let ghost before_dropped = dropped@;
        let HostOutcome { host, result } = outcome;
        match result {
            Ok(payload) => {
                successes.push(HostSuccess { host, payload });
                assert(successes@.map_values(|s: HostSuccess<T>| (s.host@, s.payload))
                    =~= before.map_values(|s: HostSuccess<T>| (s.host@, s.payload)).push(
                    (host@, payload),
                ));
            },
            Err(_) => {
                dropped.push(host);
                assert(dropped@.map_values(|h: String| h@) =~= before_dropped.map_values(
                    |h: String| h@,
                ).push(host@));
            },
        }
    }
    proof {
        assert(all.take(all.len() as int) =~= all);
        every_host_is_kept_or_dropped(all);
    }
    FleetResult { successes, dropped }
}

/// Turns what came back from probing the host `ip` into its outcome: the
/// located record where the probe ran, the error where it did not.
pub fn probe_outcome(ip: &str, run: Result<Option<MachineInfo>, AgentError>) -> (outcome:
    HostOutcome<MachineInfo>)
    ensures
        outcome.host@ == ip@,
        run is Ok <==> outcome.result is Ok,
        run matches Err(e) ==> outcome.result == Err::<MachineInfo, AgentError>(e),
        run matches Ok(decoded) ==> {
            let record = outcome.result->Ok_0;
            &&& record.ip@ == ip@
            &&& decoded matches Some(report) ==> record.gpu_info == report.gpu_info
                && record.prover_info == report.prover_info
            &&& decoded is None ==> record.gpu_info@.len() == 0 && record.prover_info@.len() == 0
        },
{
    match run {
        Ok(decoded) => HostOutcome {
            host: ip.to_owned(),
            result: Ok(MachineInfo::located(ip, decoded)),
        },
        Err(e) => HostOutcome { host: ip.to_owned(), result: Err(e) },
    }
}

/// Turns what came back from a control operation on the host `ip` into its
/// outcome.
pub fn control_outcome(ip: &str, run: Result<(), AgentError>) -> (outcome: HostOutcome<()>)
    ensures
        outcome.host@ == ip@,
        outcome.result == run,
{
    HostOutcome { host: ip.to_owned(), result: run }
}

/// The hosts of the successful outcomes, in their order.
pub open spec fn success_hosts<T>(outcomes: Seq<HostOutcome<T>>) -> Seq<Seq<char>> {
    successes_of(outcomes).map_values(|e: (Seq<char>, T)| e.0)
}

/// Whether the operation succeeded on the host `host` in this sweep.
pub open spec fn reachable_in<T>(outcomes: Seq<HostOutcome<T>>, host: Seq<char>) -> bool {
    exists|i: int|
        0 <= i < outcomes.len() && (#[trigger] outcomes[i]).host@ == host && succeeded(outcomes[i])
}

proof fn aggregate_of_none<T>(outcomes: Seq<HostOutcome<T>>)
    requires
        outcomes.len() == 0,
    ensures
        successes_of(outcomes).len() == 0,
        dropped_of(outcomes).len() == 0,
        success_hosts(outcomes).len() == 0,
{
    reveal(Seq::filter);
}

proof fn success_hosts_push<T>(outcomes: Seq<HostOutcome<T>>, next: HostOutcome<T>)
    ensures
        succeeded(next) ==> success_hosts(outcomes.push(next)) == success_hosts(outcomes).push(
            next.host@,
        ),
        !succeeded(next) ==> success_hosts(outcomes.push(next)) == success_hosts(outcomes),
{
    successes_of_push(outcomes, next);
    if succeeded(next) {
        let first = |e: (Seq<char>, T)| e.0;
        assert(successes_of(outcomes).push((next.host@, next.result->Ok_0)).map_values(first)
            =~= successes_of(outcomes).map_values(first).push(next.host@));
    }
}

/// Every host of a sweep is either reported or dropped: the successes and
/// the dropped hosts together are as many as the outcomes.
pub proof fn every_host_is_kept_or_dropped<T>(outcomes: Seq<HostOutcome<T>>)
    ensures
        successes_of(outcomes).len() + dropped_of(outcomes).len() == outcomes.len(),
    decreases outcomes.len(),
{
    if outcomes.len() == 0 {
        aggregate_of_none(outcomes);
    } else {
        let init = outcomes.drop_last();
        assert(outcomes =~= init.push(outcomes.last()));
        every_host_is_kept_or_dropped(init);
        successes_of_push(init, outcomes.last());
    }
}

/// A host is reported exactly when the operation succeeded on it.
pub proof fn reported_iff_reachable<T>(outcomes: Seq<HostOutcome<T>>, host: Seq<char>)
    ensures
        success_hosts(outcomes).contains(host) <==> reachable_in(outcomes, host),
    decreases outcomes.len(),
{
    if outcomes.len() == 0 {
        aggregate_of_none(outcomes);
    } else {
        let init = outcomes.drop_last();
        let last = outcomes.last();
        assert(outcomes =~= init.push(last));
        reported_iff_reachable(init, host);
        success_hosts_push(init, last);
        if success_hosts(outcomes).contains(host) {
            let j = choose|j: int|
                0 <= j < success_hosts(outcomes).len() && success_hosts(outcomes)[j] == host;
            if succeeded(last) && j == success_hosts(init).len() {
                assert(outcomes[outcomes.len() - 1].host@ == host);
            } else {
                assert(success_hosts(init)[j] == host);
                let i = choose|i: int|
                    0 <= i < init.len() && (#[trigger] init[i]).host@ == host && succeeded(init[i]);
                assert(outcomes[i] == init[i]);
            }
        }
        if reachable_in(outcomes, host) {
            let i = choose|i: int|
                0 <= i < outcomes.len() && (#[trigger] outcomes[i]).host@ == host && succeeded(
                    outcomes[i],
                );
            if i == outcomes.len() - 1 {
                assert(success_hosts(outcomes)[success_hosts(init).len() as int] == host);
            } else {
                assert(init[i] == outcomes[i]);
                let j = choose|j: int|
                    0 <= j < success_hosts(init).len() && success_hosts(init)[j] == host;
                assert(success_hosts(outcomes)[j] == host);
            }
        }
    }
}

/// Where no host was visited twice, no host is reported twice.
pub proof fn reported_hosts_are_distinct<T>(outcomes: Seq<HostOutcome<T>>)
    requires
        hosts_of(outcomes).no_duplicates(),
    ensures
        success_hosts(outcomes).no_duplicates(),
    decreases outcomes.len(),
{
    if outcomes.len() == 0 {
        aggregate_of_none(outcomes);
    } else {
        let init = outcomes.drop_last();
        let last = outcomes.last();
        assert(outcomes =~= init.push(last));
        assert forall|i: int, j: int|
            0 <= i < init.len() && 0 <= j < init.len() && i != j implies hosts_of(init)[i]
            != hosts_of(init)[j] by {
            assert(hosts_of(init)[i] == hosts_of(outcomes)[i]);
            assert(hosts_of(init)[j] == hosts_of(outcomes)[j]);
        }
        reported_hosts_are_distinct(init);
        success_hosts_push(init, last);
        if succeeded(last) {
            reported_iff_reachable(init, last.host@);
            if reachable_in(init, last.host@) {
                let i = choose|i: int|
                    0 <= i < init.len() && (#[trigger] init[i]).host@ == last.host@ && succeeded(
                        init[i],
                    );
                assert(hosts_of(outcomes)[i] == hosts_of(outcomes)[outcomes.len() - 1]);
            }
            assert(!success_hosts(init).contains(last.host@));
        }
    }
}

/// Where no host was visited twice, a host on which the operation failed is
/// not reported.
pub proof fn failed_host_is_not_reported<T>(outcomes: Seq<HostOutcome<T>>, i: int)
    requires
        hosts_of(outcomes).no_duplicates(),
        0 <= i < outcomes.len(),
        !succeeded(outcomes[i]),
    ensures
        !success_hosts(outcomes).contains(outcomes[i].host@),
        dropped_of(outcomes).contains(outcomes[i].host@),
{
    reported_iff_reachable(outcomes, outcomes[i].host@);
    if reachable_in(outcomes, outcomes[i].host@) {
        let j = choose|j: int|
            0 <= j < outcomes.len() && (#[trigger] outcomes[j]).host@ == outcomes[i].host@
                && succeeded(outcomes[j]);
        assert(hosts_of(outcomes)[i] == hosts_of(outcomes)[j]);
    }
    let bad = |o: HostOutcome<T>| !succeeded(o);
    let host = |o: HostOutcome<T>| o.host@;
    outcomes.lemma_filter_contains(bad, i);
    let k = choose|k: int| 0 <= k < outcomes.filter(bad).len() && outcomes.filter(bad)[k] == outcomes[i];
    assert(outcomes.filter(bad).map_values(host)[k] == outcomes[i].host@);
}

/// Two sweeps in which the operation succeeds on the same hosts report the
/// same set of hosts, and as many of them, in whatever order the hosts
/// finished.
pub proof fn repeated_sweep_reports_the_same_hosts<T>(
    first: Seq<HostOutcome<T>>,
    second: Seq<HostOutcome<T>>,
)
    requires
        hosts_of(first).no_duplicates(),
        hosts_of(second).no_duplicates(),
        forall|host: Seq<char>| reachable_in(first, host) <==> reachable_in(second, host),
    ensures
        success_hosts(first).to_set() == success_hosts(second).to_set(),
        successes_of(first).len() == successes_of(second).len(),
{
    assert forall|host: Seq<char>|
        success_hosts(first).contains(host) <==> success_hosts(second).contains(host) by {
        reported_iff_reachable(first, host);
        reported_iff_reachable(second, host);
    }
    assert(success_hosts(first).to_set() =~= success_hosts(second).to_set());
    reported_hosts_are_distinct(first);
    reported_hosts_are_distinct(second);
    success_hosts(first).unique_seq_to_set();
    success_hosts(second).unique_seq_to_set();
}

/// Whether one host fails or succeeds makes no difference to the others:
/// two sweeps that differ in the outcome of a single host report the same
/// hosts besides that one.
pub proof fn other_hosts_are_unaffected<T>(
    first: Seq<HostOutcome<T>>,
    second: Seq<HostOutcome<T>>,
    i: int,
    host: Seq<char>,
)
    requires
        first.len() == second.len(),
        0 <= i < first.len(),
        forall|j: int| 0 <= j < first.len() && j != i ==> first[j] == second[j],
        first[i].host@ == second[i].host@,
        host != first[i].host@,
    ensures
        success_hosts(first).contains(host) <==> success_hosts(second).contains(host),
{
    reported_iff_reachable(first, host);
    reported_iff_reachable(second, host);
    if reachable_in(first, host) {
        let j = choose|j: int|
            0 <= j < first.len() && (#[trigger] first[j]).host@ == host && succeeded(first[j]);
        assert(second[j] == first[j]);
    }
    if reachable_in(second, host) {
        let j = choose|j: int|
            0 <= j < second.len() && (#[trigger] second[j]).host@ == host && succeeded(second[j]);
        assert(first[j] == second[j]);
    }
}

/// A sweep that visits each of its targets once, in whatever order they
/// finish, reports no host twice and no host that is not a target, and its
/// successes and dropped hosts together are as many as the targets.
pub proof fn sweep_reports_targets_once<T>(targets: Seq<Seq<char>>, outcomes: Seq<HostOutcome<T>>)
    requires
        targets.no_duplicates(),
        hosts_of(outcomes).to_multiset() == targets.to_multiset(),
    ensures
        success_hosts(outcomes).no_duplicates(),
        successes_of(outcomes).len() + dropped_of(outcomes).len() == targets.len(),
        forall|host: Seq<char>| success_hosts(outcomes).contains(host) ==> targets.contains(host),
{
    targets.lemma_multiset_has_no_duplicates();
    hosts_of(outcomes).lemma_multiset_has_no_duplicates_conv();
    reported_hosts_are_distinct(outcomes);
    every_host_is_kept_or_dropped(outcomes);
    vstd::seq_lib::to_multiset_len(hosts_of(outcomes));
    vstd::seq_lib::to_multiset_len(targets);
    assert forall|host: Seq<char>| success_hosts(outcomes).contains(host) implies targets.contains(
        host,
    ) by {
        reported_iff_reachable(outcomes, host);
        let i = choose|i: int|
            0 <= i < outcomes.len() && (#[trigger] outcomes[i]).host@ == host && succeeded(
                outcomes[i],
            );
        assert(hosts_of(outcomes)[i] == host);
        assert(hosts_of(outcomes).contains(host));
        vstd::seq_lib::to_multiset_contains(hosts_of(outcomes), host);
        vstd::seq_lib::to_multiset_contains(targets, host);
    }
}

} // verus!
