use vstd::prelude::*;

use crate::clock::clock_failure_text;
use crate::error::AppError;
use crate::models::{MetricsSnapshot, Timestamp};
use crate::text::{has_prefix, starts_with};

verus! {

/// Bytes in a megabyte, as memory is reported.
pub const BYTES_PER_MB: u64 = 1_048_576;

/// What the system reports of one mounted disk.
#[derive(Clone, Debug)]
pub struct DiskUsage {
    pub mount_point: String,
    pub total_space: u64,
    pub available_space: u64,
}

/// What the system reports of one network interface: cumulative bytes.
#[derive(Clone, Copy, Debug)]
pub struct NetworkUsage {
    pub transmitted: u64,
    pub received: u64,
}

/// A sum that stops at the largest `u64`, as a chain of saturating
/// additions of non-negative numbers does.
pub open spec fn clamp(n: nat) -> u64 {
    if n > u64::MAX { u64::MAX } else { n as u64 }
}

/// Whether a disk mounted at `mount` counts: macOS system volumes under
/// `/System/Volumes/` and the swap volume under `/private/var/vm` do not.
pub open spec fn is_counted_mount_text(mount: Seq<char>) -> bool {
    !has_prefix(mount, "/System/Volumes/"@) && !has_prefix(mount, "/private/var/vm"@)
}

/// The used space of a disk: its total less what is available, or nothing
/// when more is available than there is.
pub open spec fn used_space(d: DiskUsage) -> nat {
    if d.total_space >= d.available_space {
        (d.total_space - d.available_space) as nat
    } else {
        0
    }
}

/// The used space of the disks that count.
pub open spec fn counted_used(disks: Seq<DiskUsage>) -> nat
    decreases disks.len(),
{
    if disks.len() == 0 {
        0
    } else {
        counted_used(disks.drop_last()) + if is_counted_mount_text(disks.last().mount_point@) {
            used_space(disks.last())
        } else {
            0
        }
    }
}

/// The total space of the disks that count.
pub open spec fn counted_total(disks: Seq<DiskUsage>) -> nat
    decreases disks.len(),
{
    if disks.len() == 0 {
        0
    } else {
        counted_total(disks.drop_last()) + if is_counted_mount_text(disks.last().mount_point@) {
            disks.last().total_space as nat
        } else {
            0
        }
    }
}

/// Bytes transmitted over all interfaces.
pub open spec fn total_transmitted(nets: Seq<NetworkUsage>) -> nat
    decreases nets.len(),
{
    if nets.len() == 0 {
        0
    } else {
        total_transmitted(nets.drop_last()) + nets.last().transmitted as nat
    }
}

/// Bytes received over all interfaces.
pub open spec fn total_received(nets: Seq<NetworkUsage>) -> nat
    decreases nets.len(),
{
    if nets.len() == 0 {
        0
    } else {
        total_received(nets.drop_last()) + nets.last().received as nat
    }
}

/// Taking one interface out of a list takes its bytes out of the totals.
proof fn lemma_totals_remove(nets: Seq<NetworkUsage>, i: int)
    requires
        0 <= i < nets.len(),
    ensures
        total_transmitted(nets) == total_transmitted(nets.remove(i)) + nets[i].transmitted,
        total_received(nets) == total_received(nets.remove(i)) + nets[i].received,
    decreases nets.len(),
{
    if i == nets.len() - 1 {
        assert(nets.remove(i) =~= nets.drop_last());
    } else {
        lemma_totals_remove(nets.drop_last(), i);
        assert(nets.remove(i).drop_last() =~= nets.drop_last().remove(i));
        assert(nets.remove(i).last() == nets.last());
    }
}

/// The network totals do not depend on the order in which the interfaces
/// are listed (the system hands them over from a hash map, in no set order).
pub proof fn lemma_network_totals_ignore_order(a: Seq<NetworkUsage>, b: Seq<NetworkUsage>)
    requires
        a.to_multiset() == b.to_multiset(),
    ensures
        total_transmitted(a) == total_transmitted(b),
        total_received(a) == total_received(b),
    decreases a.len(),
{
    broadcast use vstd::seq_lib::group_to_multiset_ensures;

    if a.len() == 0 {
        assert(b.to_multiset().len() == 0);
        assert(b.len() == 0);
    } else {
        let x = a.last();
        assert(a.drop_last().push(x) =~= a);
        assert(a.to_multiset() == a.drop_last().to_multiset().insert(x));
        assert(b.to_multiset().count(x) > 0);
        assert(b.contains(x));
        let i = choose|i: int| 0 <= i < b.len() && b[i] == x;
        lemma_totals_remove(b, i);
        assert(b.remove(i).to_multiset() =~= a.drop_last().to_multiset());
        lemma_network_totals_ignore_order(a.drop_last(), b.remove(i));
    }
}

/// The mount-point prefixes of the volumes left out of the disk totals.
pub open spec fn excluded_mount_prefixes() -> Seq<Seq<char>> {
    seq!["/System/Volumes/"@, "/private/var/vm"@]
}

/// A disk counts exactly when its mount point begins with none of the
/// excluded prefixes, `/System/Volumes/` and `/private/var/vm`; every other
/// mount point, such as `/`, `/home` or `/mnt/data`, counts.
pub proof fn lemma_counted_mounts(mount: Seq<char>)
    ensures
        is_counted_mount_text(mount) <==> excluded_mount_prefixes().all(|p: Seq<char>| !(p.len()
            <= mount.len() && mount.subrange(0, p.len() as int) == p)),
        is_counted_mount_text(mount) <==> (!("/System/Volumes/"@.len() <= mount.len()
            && mount.subrange(0, "/System/Volumes/"@.len() as int) == "/System/Volumes/"@) && !(
        "/private/var/vm"@.len() <= mount.len() && mount.subrange(0, "/private/var/vm"@.len() as int)
            == "/private/var/vm"@)),
{
    let ps = excluded_mount_prefixes();
    let f = |p: Seq<char>| !(p.len() <= mount.len() && mount.subrange(0, p.len() as int) == p);
    if ps.all(f) {
        assert(f(ps[0]));
        assert(f(ps[1]));
    }
    if is_counted_mount_text(mount) {
        assert forall|i: int| 0 <= i < ps.len() implies f(ps[i]) by {
            if i == 0 {
            } else {
            }
        }
    }
}

/// Whether a disk mounted at `mount` counts towards the disk totals.
pub fn is_counted_mount(mount: &str) -> (r: bool)
    ensures
        r == is_counted_mount_text(mount@),
        r <==> excluded_mount_prefixes().all(|p: Seq<char>| !(p.len() <= mount@.len()
            && mount@.subrange(0, p.len() as int) == p)),
{
    proof {
        lemma_counted_mounts(mount@);
    }
    !starts_with(mount, "/System/Volumes/") && !starts_with(mount, "/private/var/vm")
}

/// Used and total space of the disks that count, each summed with
/// saturating additions.
pub fn disk_totals(disks: &Vec<DiskUsage>) -> (r: (u64, u64))
    ensures
        r.0 == clamp(counted_used(disks@)),
        r.1 == clamp(counted_total(disks@)),
{
    let mut used: u64 = 0;
    let mut total: u64 = 0;
    let mut i: usize = 0;
    while i < disks.len()
        invariant
            i <= disks.len(),
            used == clamp(counted_used(disks@.take(i as int))),
            total == clamp(counted_total(disks@.take(i as int))),
        decreases disks.len() - i,
    {
        let d = &disks[i];
        assert(disks@.take(i + 1).drop_last() =~= disks@.take(i as int));
        if is_counted_mount(d.mount_point.as_str()) {
            let d_used = d.total_space.saturating_sub(d.available_space);
            used = used.saturating_add(d_used);
            total = total.saturating_add(d.total_space);
        }
        i = i + 1;
    }
    assert(disks@.take(disks.len() as int) =~= disks@);
    (used, total)
}

/// Bytes transmitted and received over all interfaces, each summed with
/// saturating additions.
pub fn network_totals(nets: &Vec<NetworkUsage>) -> (r: (u64, u64))
    ensures
        r.0 == clamp(total_transmitted(nets@)),
        r.1 == clamp(total_received(nets@)),
{
    let mut sent: u64 = 0;
    let mut received: u64 = 0;
    let mut i: usize = 0;
    while i < nets.len()
        invariant
            i <= nets.len(),
            sent == clamp(total_transmitted(nets@.take(i as int))),
            received == clamp(total_received(nets@.take(i as int))),
        decreases nets.len() - i,
    {
        assert(nets@.take(i + 1).drop_last() =~= nets@.take(i as int));
        sent = sent.saturating_add(nets[i].transmitted);
        received = received.saturating_add(nets[i].received);
        i = i + 1;
    }
    assert(nets@.take(nets.len() as int) =~= nets@);
    (sent, received)
}

/// Whole megabytes in `bytes`, rounded down.
pub fn bytes_to_mb(bytes: u64) -> (mb: u64)
    ensures
        mb == bytes / BYTES_PER_MB,
{
    bytes / BYTES_PER_MB
}

/// `s` is the snapshot of the given readings, taken at `at`.
pub open spec fn is_snapshot_of(
    s: MetricsSnapshot,
    cpu_usage_percent_bits: u32,
    used_memory: u64,
    total_memory: u64,
    disks: Seq<DiskUsage>,
    nets: Seq<NetworkUsage>,
    at: Timestamp,
) -> bool {
    &&& s.cpu_usage_percent_bits == cpu_usage_percent_bits
    &&& s.memory_used_mb == used_memory / BYTES_PER_MB
    &&& s.memory_total_mb == total_memory / BYTES_PER_MB
    &&& s.disk_used_bytes == clamp(counted_used(disks))
    &&& s.disk_total_bytes == clamp(counted_total(disks))
    &&& s.net_bytes_sent == clamp(total_transmitted(nets))
    &&& s.net_bytes_received == clamp(total_received(nets))
    &&& s.collected_at == at
}

/// Builds the snapshot of the given readings (memory in bytes), taken at `at`.
pub fn build_snapshot(
    cpu_usage_percent_bits: u32,
    used_memory: u64,
    total_memory: u64,
    disks: &Vec<DiskUsage>,
    nets: &Vec<NetworkUsage>,
    at: Timestamp,
) -> (s: MetricsSnapshot)
    ensures
        is_snapshot_of(s, cpu_usage_percent_bits, used_memory, total_memory, disks@, nets@, at),
{
    let (disk_used_bytes, disk_total_bytes) = disk_totals(disks);
    let (net_bytes_sent, net_bytes_received) = network_totals(nets);
    MetricsSnapshot {
        cpu_usage_percent_bits,
        memory_used_mb: bytes_to_mb(used_memory),
        memory_total_mb: bytes_to_mb(total_memory),
        disk_used_bytes,
        disk_total_bytes,
        net_bytes_sent,
        net_bytes_received,
        collected_at: at,
    }
}

/// Builds the snapshot of the given readings, stamped with the current time;
/// a metrics error when the system clock reads before the Unix epoch.
pub fn take_snapshot(
    cpu_usage_percent_bits: u32,
    used_memory: u64,
    total_memory: u64,
    disks: &Vec<DiskUsage>,
    nets: &Vec<NetworkUsage>,
) -> (r: Result<MetricsSnapshot, AppError>)
    ensures
        r matches Ok(s) ==> is_snapshot_of(
            s,
            cpu_usage_percent_bits,
            used_memory,
            total_memory,
            disks@,
            nets@,
            s.collected_at,
        ) && s.collected_at.is_clock_reading(),
        r matches Err(e) ==> e matches AppError::MetricsError(m) && m@ == clock_failure_text(),
{
    match crate::clock::now() {
        Some(at) => Ok(
            build_snapshot(cpu_usage_percent_bits, used_memory, total_memory, disks, nets, at),
        ),
        None => Err(
            AppError::MetricsError(String::from_str("system clock reads before the Unix epoch")),
        ),
    }
}

} // verus!
