//! The choice between disk and memory, and the reading of available memory
//! that it is made from.

use vstd::prelude::*;
use crate::config::StorageMode;

verus! {

/// Bytes in one MiB.
pub const BYTES_PER_MIB: u64 = 1048576;

/// The available memory, in MiB, that is assumed when no reading can be had.
pub const FALLBACK_AVAILABLE_MB: u64 = 512;

/// What the selector answers for one transfer.
#[derive(Debug, Clone, Copy, PartialEq, Eq, Structural)]
pub enum StorageDecision {
    UseMemory,
    UseDisk,
}

/// Whole MiB in `content_length` bytes.
pub open spec fn size_mb(content_length: u64) -> int {
    content_length as int / 1048576
}

/// MiB that must be available to stage `content_length` bytes in memory.
pub open spec fn required_mb(content_length: u64, memory_buffer_mb: u64) -> int {
    size_mb(content_length) + memory_buffer_mb as int
}

/// The selector's rule. Disk mode never uses memory. Memory mode uses it when
/// the file and the safety margin fit in what is available. Hybrid mode first
/// sends every file above the threshold to disk and then decides as memory
/// mode does.
pub open spec fn use_memory(
    mode: StorageMode,
    content_length: u64,
    memory_threshold_mb: u64,
    memory_buffer_mb: u64,
    available_mb: u64,
) -> bool {
    match mode {
        StorageMode::Disk => false,
        StorageMode::Memory => available_mb as int >= required_mb(content_length, memory_buffer_mb),
        StorageMode::Hybrid => size_mb(content_length) <= memory_threshold_mb as int
            && available_mb as int >= required_mb(content_length, memory_buffer_mb),
    }
}

/// Picks the staging backend of one transfer from the configured mode, the
/// announced length (0 when unknown) and a reading of the available memory.
pub fn decide(
    mode: StorageMode,
    content_length: u64,
    memory_threshold_mb: u64,
    memory_buffer_mb: u64,
    available_mb: u64,
) -> (decision: StorageDecision)
    ensures
        decision == (if use_memory(
            mode,
            content_length,
            memory_threshold_mb,
            memory_buffer_mb,
            available_mb,
        ) {
            StorageDecision::UseMemory
        } else {
            StorageDecision::UseDisk
        }),
{
    let file_mb: u64 = content_length / BYTES_PER_MIB;
    let fits = available_mb >= file_mb && available_mb - file_mb >= memory_buffer_mb;
    let in_memory = match mode {
        StorageMode::Disk => false,
        StorageMode::Memory => fits,
        StorageMode::Hybrid => file_mb <= memory_threshold_mb && fits,
    };
    if in_memory {
        StorageDecision::UseMemory
    } else {
        StorageDecision::UseDisk
    }
}

/// In hybrid mode a file of more MiB than the threshold is staged on disk,
/// whatever the safety margin and however much memory is available.
pub proof fn lemma_hybrid_above_threshold_uses_disk(
    content_length: u64,
    memory_threshold_mb: u64,
    memory_buffer_mb: u64,
    available_mb: u64,
)
    requires
        size_mb(content_length) > memory_threshold_mb as int,
    ensures
        !use_memory(
            StorageMode::Hybrid,
            content_length,
            memory_threshold_mb,
            memory_buffer_mb,
            available_mb,
        ),
{
}

/// Disk mode never stages in memory, and memory mode depends on the length,
/// the margin and the reading alone: the threshold plays no part in it.
pub proof fn lemma_fixed_modes_ignore_threshold(
    content_length: u64,
    threshold_a: u64,
    threshold_b: u64,
    memory_buffer_mb: u64,
    available_mb: u64,
)
    ensures
        !use_memory(StorageMode::Disk, content_length, threshold_a, memory_buffer_mb, available_mb),
        use_memory(StorageMode::Memory, content_length, threshold_a, memory_buffer_mb, available_mb)
            == use_memory(
            StorageMode::Memory,
            content_length,
            threshold_b,
            memory_buffer_mb,
            available_mb,
        ),
        use_memory(StorageMode::Memory, content_length, threshold_a, memory_buffer_mb, available_mb)
            <==> available_mb as int >= size_mb(content_length) + memory_buffer_mb as int,
{
}

/// Whole MiB in a reading given in bytes.
pub fn bytes_to_mb(bytes: u64) -> (mb: u64)
    ensures
        mb as int == bytes as int / 1048576,
{
    bytes / BYTES_PER_MIB
}

/// The handle of the `sysinfo` crate to the figures of the machine.
#[verifier::external_type_specification]
#[verifier::external_body]
pub struct ExSystem(sysinfo::System);

/// `sysinfo::System::new`: a handle with nothing loaded yet. Nothing is
/// claimed of it.
pub assume_specification[ sysinfo::System::new ]() -> sysinfo::System;

/// `sysinfo::System::refresh_memory`: takes a new snapshot of the machine's
/// memory figures. Nothing is claimed of the snapshot.
pub assume_specification[ sysinfo::System::refresh_memory ](system: &mut sysinfo::System);

/// The available memory, in bytes, in the snapshot that a handle holds.
pub uninterp spec fn snapshot_available(system: sysinfo::System) -> u64;

/// `sysinfo::System::available_memory`: the available memory, in bytes, as
/// of the last snapshot. The method reads a figure that the handle stores
/// and asks the machine nothing; which figure a snapshot holds depends on
/// the machine, so nothing is claimed of the number.
pub assume_specification[ sysinfo::System::available_memory ](system: &sysinfo::System) -> (bytes:
    u64)
    ensures
        bytes == snapshot_available(*system),
;

/// The long-lived handle through which the available memory is read.
pub struct MemoryProbe {
    system: sysinfo::System,
}

impl MemoryProbe {
    /// The available memory, in bytes, in the snapshot that the probe holds.
    pub closed spec fn snapshot_bytes(&self) -> u64 {
        snapshot_available(self.system)
    }

    /// A probe that has taken its first snapshot.
    pub fn new() -> (probe: Self) {
        let mut system = sysinfo::System::new();
        system.refresh_memory();
        MemoryProbe { system }
    }

    /// Takes a new snapshot.
    pub fn refresh(&mut self) {
        self.system.refresh_memory();
    }

    /// The available memory of the last snapshot, in whole MiB. Reading
    /// takes no new snapshot: until the next refresh the answer is the same.
    pub fn available_mb(&self) -> (mb: u64)
        ensures
            mb as int == self.snapshot_bytes() as int / 1048576,
            mb as int <= u64::MAX as int / 1048576,
    {
        bytes_to_mb(self.system.available_memory())
    }
}

/// The reading that a storage decision is made from: where a probe can be
/// had, the whole MiB in the snapshot that it holds after a refresh, and the
/// fixed fallback where it cannot.
pub fn get_available_memory_mb(probe: Option<&mut MemoryProbe>) -> (mb: u64)
    ensures
        probe is None ==> mb == FALLBACK_AVAILABLE_MB,
        probe is Some ==> mb as int <= u64::MAX as int / 1048576,
        probe matches Some(handle) ==> mb as int == final(handle).snapshot_bytes() as int
            / 1048576,
{
    match probe {
        Some(probe) => {
            probe.refresh();
            probe.available_mb()
        },
        None => FALLBACK_AVAILABLE_MB,
    }
}

} // verus!
