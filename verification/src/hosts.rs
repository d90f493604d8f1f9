//! Host targets: the addresses that a subnet sweep visits.

use vstd::prelude::*;
use vstd::string::*;
use crate::text::{decimal, decimal_text};

verus! {

/// The lowest host suffix of a subnet sweep.
pub const FIRST_SUFFIX: u8 = 1;

/// The number of host suffixes of a full subnet sweep, 1 to 255.
pub const FULL_SWEEP: u8 = 255;

/// A run of consecutive host suffixes, `first` up to `first + count - 1`.
#[derive(Clone, Copy, Debug, PartialEq, Eq, Structural)]
pub struct HostRange {
    pub first: u8,
    pub count: u8,
}

impl HostRange {
    /// A range lies within the suffixes 1 to 255.
    pub open spec fn wf(&self) -> bool {
        self.first >= 1 && self.first + self.count <= 256
    }

    /// The range of `count` suffixes from `first` on, if it lies within the
    /// suffixes 1 to 255.
    pub fn new(first: u8, count: u8) -> (r: Option<HostRange>)
        ensures
            r is Some <==> (first >= 1 && first + count <= 256),
            r matches Some(range) ==> range.first == first && range.count == count && range.wf(),
    {
        if first >= 1 && count <= 255 - first + 1 {
            Some(HostRange { first, count })
        } else {
            None
        }
    }

    /// Every suffix of a subnet.
    pub fn full() -> (r: HostRange)
        ensures
            r.wf(),
            r.first == FIRST_SUFFIX,
            r.count == FULL_SWEEP,
    {
        HostRange { first: FIRST_SUFFIX, count: FULL_SWEEP }
    }
}

/// Where the subnet prefix of `s` ends, scanning from `i` on with
/// `dots_left` more dots allowed inside the prefix: at the next dot after
/// those, or at the end of `s`.
pub open spec fn prefix_end(s: Seq<char>, i: int, dots_left: nat) -> int
    decreases s.len() - i,
{
    if i < 0 || i >= s.len() {
        s.len() as int
    } else if s[i] != '.' {
        prefix_end(s, i + 1, dots_left)
    } else if dots_left == 0 {
        i
    } else {
        prefix_end(s, i + 1, (dots_left - 1) as nat)
    }
}

/// The subnet prefix of an address: its first three dot-separated parts,
/// that is the text before its third dot, or all of it where it has fewer
/// than three dots.
pub open spec fn subnet_prefix_of(ip: Seq<char>) -> Seq<char> {
    ip.take(prefix_end(ip, 0, 2))
}

/// The number of dots in `s`.
pub open spec fn dots_in(s: Seq<char>) -> nat
    decreases s.len(),
{
    if s.len() == 0 {
        0
    } else {
        dots_in(s.drop_last()) + if s.last() == '.' {
            1nat
        } else {
            0nat
        }
    }
}

/// The address of the host with the given suffix in a subnet.
pub open spec fn host_address_of(prefix: Seq<char>, suffix: nat) -> Seq<char> {
    prefix + seq!['.'] + decimal_text(suffix)
}

/// The addresses of the hosts of `range` in the subnet of `ip`, in ascending
/// order of suffix.
pub open spec fn host_targets_of(ip: Seq<char>, range: HostRange) -> Seq<Seq<char>> {
    Seq::new(
        range.count as nat,
        |i: int| host_address_of(subnet_prefix_of(ip), (range.first + i) as nat),
    )
}

/// Extracts the subnet prefix of an address.
pub fn subnet_prefix(ip: &str) -> (prefix: String)
    ensures
        prefix@ == subnet_prefix_of(ip@),
{
    let n = ip.unicode_len();
    let mut end: usize = 0;
    let mut dots_left: u8 = 2;
    let mut found = false;
    for c in it: ip.chars()
        invariant
            n == ip@.len(),
            it.seq() == ip@,
            dots_left <= 2,
            !found ==> end == it.index() && prefix_end(ip@, 0, 2) == prefix_end(
                ip@,
                end as int,
                dots_left as nat,
            ),
            found ==> end < n && prefix_end(ip@, 0, 2) == end,
    {
        if !found {
            if c != '.' {
                end += 1;
            } else if dots_left == 0 {
                found = true;
            } else {
                dots_left -= 1;
                end += 1;
            }
        }
    }
    String::from_str(ip.substring_char(0, end))
}

/// Builds the address of the host with the given suffix.
pub fn host_address(prefix: &str, suffix: u8) -> (address: String)
    ensures
        address@ == host_address_of(prefix@, suffix as nat),
{
    let mut address = String::from_str(prefix);
    address.append(".");
    proof {
        reveal_strlit(".");
        assert("."@ =~= seq!['.']);
    }
    let digits = decimal(suffix as u64);
    address.append(digits.as_str());
    address
}

/// Expands a subnet to the addresses of the hosts of `range`.
pub fn host_targets(ip: &str, range: HostRange) -> (targets: Vec<String>)
    requires
        range.wf(),
    ensures
        targets.len() == range.count,
        forall|i: int|
            0 <= i < targets.len() ==> #[trigger] targets[i]@ == host_targets_of(ip@, range)[i],
{
    let prefix = subnet_prefix(ip);
    let mut targets: Vec<String> = Vec::new();
    let mut done: u8 = 0;
    while done < range.count
        invariant
            range.wf(),
            done <= range.count,
            prefix@ == subnet_prefix_of(ip@),
            targets.len() == done,
            forall|i: int|
                0 <= i < targets.len() ==> #[trigger] targets[i]@ == host_targets_of(
                    ip@,
                    range,
                )[i],
        decreases range.count - done,
    {
        let address = host_address(prefix.as_str(), range.first + done);
        targets.push(address);
        done += 1;
    }
    targets
}

proof fn dots_in_take_next(s: Seq<char>, i: int)
    requires
        0 <= i < s.len(),
    ensures
        dots_in(s.take(i + 1)) == dots_in(s.take(i)) + if s[i] == '.' {
            1nat
        } else {
            0nat
        },
{
    assert(s.take(i + 1).drop_last() =~= s.take(i));
}

proof fn prefix_end_stops_at_a_dot(s: Seq<char>, i: int, dots_left: nat)
    requires
        0 <= i <= s.len(),
        dots_left <= 2,
        dots_in(s.take(i)) == 2 - dots_left,
    ensures
        i <= prefix_end(s, i, dots_left) <= s.len(),
        dots_in(s.take(prefix_end(s, i, dots_left))) <= 2,
        prefix_end(s, i, dots_left) < s.len() ==> s[prefix_end(s, i, dots_left)] == '.' && dots_in(
            s.take(prefix_end(s, i, dots_left)),
        ) == 2,
    decreases s.len() - i,
{
    if i < s.len() {
        dots_in_take_next(s, i);
        if s[i] != '.' {
            prefix_end_stops_at_a_dot(s, i + 1, dots_left);
        } else if dots_left != 0 {
            prefix_end_stops_at_a_dot(s, i + 1, (dots_left - 1) as nat);
        }
    }
}

/// The subnet prefix is the part of the address before its third dot: it
/// starts the address, holds at most two dots, and ends either where the
/// address ends or just before a dot, then holding two.
pub proof fn subnet_prefix_ends_before_third_dot(ip: Seq<char>)
    ensures
        subnet_prefix_of(ip).is_prefix_of(ip),
        dots_in(subnet_prefix_of(ip)) <= 2,
        subnet_prefix_of(ip).len() < ip.len() ==> ip[subnet_prefix_of(ip).len() as int] == '.'
            && dots_in(subnet_prefix_of(ip)) == 2,
{
    assert(ip.take(0) =~= Seq::<char>::empty());
    prefix_end_stops_at_a_dot(ip, 0, 2);
}

/// Hosts with different suffixes have different addresses.
pub proof fn host_address_is_injective(prefix: Seq<char>, a: nat, b: nat)
    requires
        host_address_of(prefix, a) == host_address_of(prefix, b),
    ensures
        a == b,
{
    let x = host_address_of(prefix, a);
    let y = host_address_of(prefix, b);
    assert(x.skip(prefix.len() as int + 1) =~= decimal_text(a));
    assert(y.skip(prefix.len() as int + 1) =~= decimal_text(b));
    crate::text::decimal_text_is_injective(a, b);
}

/// A sweep visits no host twice.
pub proof fn host_targets_are_distinct(ip: Seq<char>, range: HostRange)
    ensures
        host_targets_of(ip, range).no_duplicates(),
{
    let targets = host_targets_of(ip, range);
    assert forall|i: int, j: int|
        0 <= i < targets.len() && 0 <= j < targets.len() && i != j implies targets[i]
        != targets[j] by {
        if targets[i] == targets[j] {
            host_address_is_injective(
                subnet_prefix_of(ip),
                (range.first + i) as nat,
                (range.first + j) as nat,
            );
        }
    }
}

} // verus!
