//! The streaming of a scan: the sweep is cut into windows of hosts, and each
//! window is probed and reported before the next one starts.

use vstd::prelude::*;
use crate::hosts::HostRange;
use crate::ws::{OutboundEnvelope, OutboundModel};

verus! {

/// The number of hosts in one window of a sweep.
pub const WINDOW_SIZE: u8 = 10;

/// The number of windows of `size` hosts that cover `hosts` hosts.
pub open spec fn window_count_of(hosts: nat, size: nat) -> nat {
    if size == 0 {
        0
    } else {
        ((hosts + size - 1) / (size as int)) as nat
    }
}

/// The window with the given index: `size` hosts from the start of the range
/// on for each window before it, and as many hosts as are left, `size` at
/// most.
pub open spec fn window_of(range: HostRange, size: nat, index: nat) -> HostRange {
    HostRange {
        first: (range.first + index * size) as u8,
        count: if range.count - index * size < size {
            (range.count - index * size) as u8
        } else {
            size as u8
        },
    }
}

/// The percentage of the sweep that is covered once `issued` of `total`
/// windows are issued, rounded down; a sweep without windows is covered.
pub open spec fn progress_of(issued: nat, total: nat) -> nat {
    if total == 0 || issued >= total {
        100
    } else {
        issued * 100 / total
    }
}

/// What the sweep does next.
#[derive(Clone, Copy, Debug, PartialEq, Eq, Structural)]
pub enum SweepStep {
    /// Probe the hosts of this window, then report them with
    /// [`ScanSweep::envelope`] and record the sending.
    Probe(HostRange),
    /// Every window is reported.
    Finished,
    /// A report could not be sent: the rest of the sweep is given up and the
    /// channel counts as lost.
    Aborted,
}

/// The mathematical content of a [`ScanSweep`].
pub ghost struct SweepModel {
    pub range: HostRange,
    pub size: nat,
    pub issued: nat,
    pub lost: bool,
}

impl SweepModel {
    /// The number of windows of the sweep.
    pub open spec fn total(self) -> nat {
        window_count_of(self.range.count as nat, self.size)
    }

    /// A sweep covers a valid range with windows that are not empty, and
    /// has issued no more windows than it has.
    pub open spec fn wf(self) -> bool {
        &&& self.range.wf()
        &&& 1 <= self.size <= 255
        &&& self.issued <= self.total()
    }

    /// The sweep over `range` in windows of `size`, before its first window.
    pub open spec fn start(range: HostRange, size: nat) -> SweepModel {
        SweepModel { range, size, issued: 0, lost: false }
    }

    /// What the sweep does next: nothing more once the channel is lost, else
    /// the next window, else nothing more because all are reported.
    pub open spec fn step_of(self) -> SweepStep {
        if self.lost {
            SweepStep::Aborted
        } else if self.issued < self.total() {
            SweepStep::Probe(window_of(self.range, self.size, self.issued))
        } else {
            SweepStep::Finished
        }
    }

    /// The progress that the report of the window now due carries.
    pub open spec fn progress_due(self) -> nat {
        progress_of(self.issued + 1, self.total())
    }

    /// The sweep after the report of the window that was due was sent, or
    /// could not be sent. Where no window was due, the sweep stays as it is.
    pub open spec fn after_send(self, delivered: bool) -> SweepModel {
        if self.lost || self.issued >= self.total() {
            self
        } else if delivered {
            SweepModel { issued: self.issued + 1, ..self }
        } else {
            SweepModel { lost: true, ..self }
        }
    }

    /// The sweep after one sending for each entry of `deliveries`.
    pub open spec fn after_sends(self, deliveries: Seq<bool>) -> SweepModel
        decreases deliveries.len(),
    {
        if deliveries.len() == 0 {
            self
        } else {
            self.after_sends(deliveries.drop_last()).after_send(deliveries.last())
        }
    }
}

/// The state of one streamed scan.
#[derive(Clone, Copy, Debug)]
pub struct ScanSweep {
    range: HostRange,
    size: u8,
    issued: u16,
    lost: bool,
}

impl View for ScanSweep {
    type V = SweepModel;

    closed spec fn view(&self) -> SweepModel {
        SweepModel {
            range: self.range,
            size: self.size as nat,
            issued: self.issued as nat,
            lost: self.lost,
        }
    }
}

/// A window that is due lies inside the range: the windows before it do not
/// use the range up.
pub proof fn window_starts_inside_range(hosts: nat, size: nat, index: nat)
    requires
        size >= 1,
        index < window_count_of(hosts, size),
    ensures
        index * size < hosts,
{
    let total = (hosts + size - 1) / (size as int);
    assert(total * size <= hosts + size - 1) by (nonlinear_arith)
        requires
            total == (hosts + size - 1) / (size as int),
            size >= 1,
    ;
    assert(index * size <= (total - 1) * size) by (nonlinear_arith)
        requires
            index <= total - 1,
            size >= 1,
    ;
    assert((total - 1) * size == total * size - size) by (nonlinear_arith);
}

/// The windows use the range up: after the last one no host is left.
pub proof fn windows_cover_range(hosts: nat, size: nat)
    requires
        size >= 1,
    ensures
        window_count_of(hosts, size) * size >= hosts,
{
    let total = (hosts + size - 1) / (size as int);
    assert(total * size > hosts + size - 1 - size) by (nonlinear_arith)
        requires
            total == (hosts + size - 1) / (size as int),
            size >= 1,
    ;
}

/// Each window is a valid range that is not empty and holds `size` hosts at
/// most; the first window starts where the range starts, each later one
/// where the one before it ends, and the last one ends where the range ends.
pub proof fn windows_tile_the_range(range: HostRange, size: nat, index: nat)
    requires
        range.wf(),
        1 <= size <= 255,
        index < window_count_of(range.count as nat, size),
    ensures
        window_of(range, size, index).wf(),
        1 <= window_of(range, size, index).count <= size,
        window_of(range, size, index).first == range.first + index * size,
        index + 1 < window_count_of(range.count as nat, size) ==> window_of(
            range,
            size,
            index + 1,
        ).first == window_of(range, size, index).first + window_of(range, size, index).count,
        index + 1 == window_count_of(range.count as nat, size) ==> window_of(
            range,
            size,
            index,
        ).first + window_of(range, size, index).count == range.first + range.count,
{
    window_starts_inside_range(range.count as nat, size, index);
    assert((index + 1) * size == index * size + size) by (nonlinear_arith);
    if index + 1 < window_count_of(range.count as nat, size) {
        window_starts_inside_range(range.count as nat, size, index + 1);
    } else {
        windows_cover_range(range.count as nat, size);
    }
}

/// A sweep has no more windows than hosts.
pub proof fn window_count_is_bounded(hosts: nat, size: nat)
    requires
        size >= 1,
    ensures
        window_count_of(hosts, size) <= hosts,
{
    assert((hosts + size - 1) / (size as int) <= hosts) by (nonlinear_arith)
        requires
            size >= 1,
            hosts >= 0,
    ;
}

/// A full subnet sweep in windows of ten hosts has 26 windows.
pub proof fn full_sweep_has_26_windows()
    ensures
        window_count_of(255, 10) == 26,
{
}

/// Progress is a percentage.
pub proof fn progress_is_a_percentage(issued: nat, total: nat)
    ensures
        progress_of(issued, total) <= 100,
{
    if total != 0 && issued < total {
        assert(issued * 100 / total <= 100) by (nonlinear_arith)
            requires
                issued < total,
        ;
    }
}

/// Progress never goes back as more windows are issued.
pub proof fn progress_never_decreases(earlier: nat, later: nat, total: nat)
    requires
        earlier <= later,
    ensures
        progress_of(earlier, total) <= progress_of(later, total),
{
    progress_is_a_percentage(earlier, total);
    if total != 0 && later < total {
        assert(earlier * 100 / total <= later * 100 / total) by (nonlinear_arith)
            requires
                earlier <= later,
                total > 0,
        ;
    }
}

/// The report of the last window carries full progress.
pub proof fn last_window_reports_full_progress(total: nat)
    ensures
        progress_of(total, total) == 100,
{
}

/// The number of windows and their order do not depend on what the probes
/// find: while every report is sent, the sweep issues its windows one after
/// the other, each with the progress of its place, and is finished after
/// exactly as many reports as it has windows.
pub proof fn sweep_reports_every_window(start: SweepModel, deliveries: Seq<bool>)
    requires
        start.wf(),
        start.issued == 0,
        !start.lost,
        deliveries.len() <= start.total(),
        forall|i: int| 0 <= i < deliveries.len() ==> deliveries[i],
    ensures
        start.after_sends(deliveries) == (SweepModel { issued: deliveries.len(), ..start }),
        deliveries.len() < start.total() ==> start.after_sends(deliveries).step_of()
            == SweepStep::Probe(window_of(start.range, start.size, deliveries.len()))
            && start.after_sends(deliveries).progress_due() == progress_of(
            deliveries.len() + 1,
            start.total(),
        ),
        deliveries.len() == start.total() ==> start.after_sends(deliveries).step_of()
            == SweepStep::Finished,
    decreases deliveries.len(),
{
    if deliveries.len() > 0 {
        sweep_reports_every_window(start, deliveries.drop_last());
    }
}

/// Once a report could not be sent, no further window is issued, whatever
/// happens after.
pub proof fn lost_channel_ends_the_sweep(sweep: SweepModel, deliveries: Seq<bool>)
    requires
        sweep.lost,
    ensures
        sweep.after_sends(deliveries) == sweep,
        sweep.step_of() == SweepStep::Aborted,
    decreases deliveries.len(),
{
    if deliveries.len() > 0 {
        lost_channel_ends_the_sweep(sweep, deliveries.drop_last());
    }
}

/// Computes the percentage of the sweep that is covered once `issued` of
/// `total` windows are issued.
pub fn progress(issued: u16, total: u16) -> (p: u8)
    ensures
        p == progress_of(issued as nat, total as nat),
{
    if total == 0 || issued >= total {
        100
    } else {
        assert((issued as nat) * 100 / (total as nat) <= 100) by (nonlinear_arith)
            requires
                issued < total,
        ;
        ((issued as u32 * 100) / (total as u32)) as u8
    }
}

impl ScanSweep {
    /// Every sweep is well formed.
    #[verifier::type_invariant]
    closed spec fn wf(&self) -> bool {
        self@.wf()
    }

    /// The sweep over `range` in windows of `size` hosts, if the range is
    /// valid and the windows are not empty.
    pub fn new(range: HostRange, size: u8) -> (r: Option<ScanSweep>)
        ensures
            r is Some <==> range.wf() && size >= 1,
            r matches Some(sweep) ==> sweep@ == SweepModel::start(range, size as nat),
    {
        if range.first >= 1 && range.count <= 255 - range.first + 1 && size >= 1 {
            Some(ScanSweep { range, size, issued: 0, lost: false })
        } else {
            None
        }
    }

    /// The sweep over every host of a subnet, in windows of ten.
    pub fn full() -> (sweep: ScanSweep)
        ensures
            sweep@ == SweepModel::start(HostRange { first: 1, count: 255 }, 10),
    {
        ScanSweep { range: HostRange::full(), size: WINDOW_SIZE, issued: 0, lost: false }
    }

    /// The number of windows of the sweep.
    pub fn window_count(&self) -> (n: u16)
        ensures
            n == self@.total(),
            self@.wf(),
    {
        proof {
            use_type_invariant(self);
        }
        (self.range.count as u16 + self.size as u16 - 1) / (self.size as u16)
    }

    /// The number of windows that are reported.
    pub fn issued(&self) -> (n: u16)
        ensures
            n == self@.issued,
    {
        self.issued
    }

    /// Decides what the sweep does next.
    pub fn next_step(&self) -> (step: SweepStep)
        ensures
            step == self@.step_of(),
            step matches SweepStep::Probe(window) ==> window.wf() && window.count >= 1,
    {
        proof {
            use_type_invariant(self);
        }
        if self.lost {
            SweepStep::Aborted
        } else if self.issued < self.window_count() {
            proof {
                windows_tile_the_range(self.range, self.size as nat, self.issued as nat);
                window_starts_inside_range(
                    self.range.count as nat,
                    self.size as nat,
                    self.issued as nat,
                );
                window_count_is_bounded(self.range.count as nat, self.size as nat);
                assert(self.issued * self.size <= 255 * 255) by (nonlinear_arith)
                    requires
                        self.issued <= 255,
                        self.size <= 255,
                ;
            }
            let offset: u16 = self.issued * (self.size as u16);
            let left: u16 = self.range.count as u16 - offset;
            let count: u8 = if left < self.size as u16 {
                left as u8
            } else {
                self.size
            };
            SweepStep::Probe(HostRange { first: (self.range.first as u16 + offset) as u8, count })
        } else {
            SweepStep::Finished
        }
    }

    /// The report of the window that is due: a `scan_result` with the
    /// encoded records of the window and the progress of its place.
    pub fn envelope(&self, data: String) -> (e: OutboundEnvelope)
        ensures
            e@ == (OutboundModel {
                name: "scan_result"@,
                data: data@,
                progress: Some(self@.progress_due() as u8),
            }),
            self@.progress_due() <= 100,
    {
        proof {
            use_type_invariant(self);
            progress_is_a_percentage(self@.issued + 1, self@.total());
        }
        let total = self.window_count();
        proof {
            window_count_is_bounded(self.range.count as nat, self.size as nat);
        }
        OutboundEnvelope::scan_result(data, progress(self.issued + 1, total))
    }

    /// Records whether the report of the window that was due was sent.
    pub fn record_send(&mut self, delivered: bool)
        ensures
            final(self)@ == old(self)@.after_send(delivered),
    {
        proof {
            use_type_invariant(&*self);
        }
        if !self.lost && self.issued < self.window_count() {
            if delivered {
                self.issued = self.issued + 1;
            } else {
                self.lost = true;
            }
        }
    }
}

} // verus!
