//! The snapshot: what one tick knows of the host, its accelerators, the
//! watched process and the log, merged from readings that may each be
//! missing.

use vstd::prelude::*;
use crate::logtail::{at_most, texts, LogReport, METRIC_CAP};

verus! {

/// Memory in use out of a total, in bytes. The part in use never exceeds the
/// total.
#[derive(Clone, Copy, Debug, PartialEq, Eq)]
pub struct MemoryUsage {
    used_bytes: u64,
    total_bytes: u64,
}

impl MemoryUsage {
    #[verifier::type_invariant]
    spec fn within_total(self) -> bool {
        self.used_bytes <= self.total_bytes
    }

    /// The bytes in use.
    pub closed spec fn used(self) -> nat {
        self.used_bytes as nat
    }

    /// The bytes in total.
    pub closed spec fn total(self) -> nat {
        self.total_bytes as nat
    }

    /// Memory usage from a raw pair. A reading that claims more in use than
    /// there is in total is cut down to the total.
    pub fn new(used_bytes: u64, total_bytes: u64) -> (m: MemoryUsage)
        ensures
            m.total() == total_bytes,
            m.used() == if used_bytes <= total_bytes {
                used_bytes
            } else {
                total_bytes
            },
            m.used() <= m.total(),
    {
        if used_bytes <= total_bytes {
            MemoryUsage { used_bytes, total_bytes }
        } else {
            MemoryUsage { used_bytes: total_bytes, total_bytes }
        }
    }

    /// The bytes in use, which are at most the total.
    pub fn used_bytes(&self) -> (used: u64)
        ensures
            used == self.used(),
            used <= self.total(),
    {
        proof {
            use_type_invariant(self);
        }
        self.used_bytes
    }

    /// The bytes in total, which are at least those in use.
    pub fn total_bytes(&self) -> (total: u64)
        ensures
            total == self.total(),
            self.used() <= total,
    {
        proof {
            use_type_invariant(self);
        }
        self.total_bytes
    }
}

/// A raw pair of memory figures as a probe reports it.
#[derive(Clone, Copy, Debug, PartialEq, Eq)]
pub struct MemoryReading {
    pub used_bytes: u64,
    pub total_bytes: u64,
}

/// What the host probe reports. Processor load is in hundredths of a percent.
#[derive(Clone, Copy, Debug, PartialEq, Eq)]
pub struct HostReading {
    pub cpu_hundredths: u64,
    pub memory: MemoryReading,
}

/// What the accelerator probe reports of one device. A query that failed
/// leaves its field empty.
#[derive(Clone, Copy, Debug, PartialEq, Eq)]
pub struct DeviceReading {
    pub utilization_percent: Option<u32>,
    pub memory: Option<MemoryReading>,
    pub temperature_celsius: Option<u32>,
}

/// Processor load, in hundredths of a percent, and resident memory of the
/// watched process.
#[derive(Clone, Copy, Debug, PartialEq, Eq)]
pub struct ProcessUsage {
    pub cpu_hundredths: u64,
    pub memory_bytes: u64,
}

/// One accelerator's row in a snapshot. A field is empty where its query
/// failed.
#[derive(Clone, Copy, Debug, PartialEq, Eq)]
pub struct Accelerator {
    pub index: usize,
    pub utilization_percent: Option<u32>,
    pub memory: Option<MemoryUsage>,
    pub temperature_celsius: Option<u32>,
}

/// Why a tick could not produce a snapshot.
#[derive(Clone, Copy, Debug, PartialEq, Eq)]
pub enum TickError {
    /// The host probe failed; host metrics are not optional.
    HostProbeFailed,
}

/// The metrics of one tick. A snapshot is made once, by [`build_snapshot`],
/// and read through its methods. Nowhere in it is more memory in use than
/// there is in total, each accelerator row carries its place as its index,
/// and it keeps at most `METRIC_CAP` log texts.
#[derive(Debug)]
pub struct Snapshot {
    cpu_hundredths: u64,
    memory: MemoryUsage,
    accelerators: Option<Vec<Accelerator>>,
    process: Option<ProcessUsage>,
    log_metrics: Vec<String>,
    log_open_failed: bool,
}

/// The rows of an optional list.
pub open spec fn optional_rows(rows: Option<Vec<Accelerator>>) -> Option<Seq<Accelerator>> {
    match rows {
        Some(list) => Some(list@),
        None => None,
    }
}

/// The rows of an optional borrowed list.
pub open spec fn borrowed_rows(rows: Option<&Vec<Accelerator>>) -> Option<Seq<Accelerator>> {
    match rows {
        Some(list) => Some(list@),
        None => None,
    }
}

/// Whether the memory figures of the rows are consistent and each row
/// carries its place as its index.
pub open spec fn rows_consistent(rows: Seq<Accelerator>) -> bool {
    forall|i: int|
        0 <= i < rows.len() ==> {
            &&& (#[trigger] rows[i]).index == i
            &&& rows[i].memory matches Some(usage) ==> usage.used() <= usage.total()
        }
}

impl Snapshot {
    #[verifier::type_invariant]
    spec fn consistent(self) -> bool {
        &&& self.memory.used() <= self.memory.total()
        &&& self.accelerators matches Some(list) ==> rows_consistent(list@)
        &&& self.log_metrics@.len() <= METRIC_CAP
    }

    /// Host-wide processor load, in hundredths of a percent.
    pub closed spec fn cpu(self) -> u64 {
        self.cpu_hundredths
    }

    /// Host-wide memory.
    pub closed spec fn host_memory(self) -> MemoryUsage {
        self.memory
    }

    /// The accelerators in device order, or `None` where no accelerator
    /// subsystem could be asked.
    pub closed spec fn rows(self) -> Option<Seq<Accelerator>> {
        optional_rows(self.accelerators)
    }

    /// The watched process, or `None` where none of that name runs.
    pub closed spec fn watched(self) -> Option<ProcessUsage> {
        self.process
    }

    /// The texts taken from the log, the most recent first.
    pub closed spec fn metrics(self) -> Seq<Seq<char>> {
        texts(self.log_metrics@)
    }

    /// Whether a log was configured and could not be opened.
    pub closed spec fn log_failed(self) -> bool {
        self.log_open_failed
    }

    /// Host-wide processor load, in hundredths of a percent.
    pub fn cpu_hundredths(&self) -> (cpu: u64)
        ensures
            cpu == self.cpu(),
    {
        self.cpu_hundredths
    }

    /// Host-wide memory, of which no more is in use than there is in total.
    pub fn memory(&self) -> (memory: MemoryUsage)
        ensures
            memory == self.host_memory(),
            memory.used() <= memory.total(),
    {
        proof {
            use_type_invariant(self);
        }
        self.memory
    }

    /// The accelerators in device order, or `None` where no accelerator
    /// subsystem could be asked. Of no accelerator is more memory in use
    /// than there is in total.
    pub fn accelerators(&self) -> (rows: Option<&Vec<Accelerator>>)
        ensures
            borrowed_rows(rows) == self.rows(),
            rows matches Some(list) ==> rows_consistent(list@),
    {
        proof {
            use_type_invariant(self);
        }
        match &self.accelerators {
            Some(list) => Some(list),
            None => None,
        }
    }

    /// The watched process, or `None` where none of that name runs.
    pub fn process(&self) -> (process: Option<ProcessUsage>)
        ensures
            process == self.watched(),
    {
        self.process
    }

    /// The texts taken from the log, the most recent first and at most
    /// `METRIC_CAP` of them.
    pub fn log_metrics(&self) -> (metrics: &Vec<String>)
        ensures
            texts(metrics@) == self.metrics(),
            metrics@.len() <= METRIC_CAP,
    {
        proof {
            use_type_invariant(self);
        }
        &self.log_metrics
    }

    /// Whether a log was configured and could not be opened.
    pub fn log_open_failed(&self) -> (failed: bool)
        ensures
            failed == self.log_failed(),
    {
        self.log_open_failed
    }
}

/// The usage that a raw pair stands for.
pub open spec fn usage_reflects(usage: MemoryUsage, reading: MemoryReading) -> bool {
    &&& usage.total() == reading.total_bytes
    &&& usage.used() == if reading.used_bytes <= reading.total_bytes {
        reading.used_bytes
    } else {
        reading.total_bytes
    }
}

/// Whether `row` is the row of the device with the given index and reading:
/// the fields that were read are kept, those that were not stay empty.
pub open spec fn row_reflects(row: Accelerator, index: int, reading: DeviceReading) -> bool {
    &&& row.index == index
    &&& row.utilization_percent == reading.utilization_percent
    &&& row.temperature_celsius == reading.temperature_celsius
    &&& match reading.memory {
        None => row.memory is None,
        Some(pair) => row.memory matches Some(usage) && usage_reflects(usage, pair),
    }
}

/// Whether the accelerator rows are those of the device readings, one row
/// per device and in device order, and absent exactly where the readings are.
pub open spec fn rows_reflect(rows: Option<Seq<Accelerator>>, devices: Option<Vec<DeviceReading>>) -> bool {
    match devices {
        None => rows is None,
        Some(readings) => rows matches Some(list) && list.len() == readings@.len() && forall|i: int|
            0 <= i < readings@.len() ==> row_reflects(#[trigger] list[i], i, readings@[i]),
    }
}

/// Whether the memory figures of a snapshot are consistent: nowhere is more
/// in use than there is in total.
pub open spec fn memory_consistent(snapshot: Snapshot) -> bool {
    &&& snapshot.host_memory().used() <= snapshot.host_memory().total()
    &&& snapshot.rows() matches Some(list) ==> forall|i: int|
        0 <= i < list.len() ==> (#[trigger] list[i].memory matches Some(usage) ==> usage.used()
            <= usage.total())
}

/// The first of the processes that carry the watched name, if there is one.
pub open spec fn first_of(candidates: Seq<ProcessUsage>) -> Option<ProcessUsage> {
    if candidates.len() == 0 {
        None
    } else {
        Some(candidates[0])
    }
}

/// The row of the device with the given index and reading.
pub fn accelerator_row(index: usize, reading: &DeviceReading) -> (row: Accelerator)
    ensures
        row_reflects(row, index as int, *reading),
        row.memory matches Some(usage) ==> usage.used() <= usage.total(),
{
    let memory = match reading.memory {
        Some(pair) => Some(MemoryUsage::new(pair.used_bytes, pair.total_bytes)),
        None => None,
    };
    Accelerator {
        index,
        utilization_percent: reading.utilization_percent,
        memory,
        temperature_celsius: reading.temperature_celsius,
    }
}

/// The rows of all devices, in device order.
pub fn accelerator_rows(readings: &Vec<DeviceReading>) -> (rows: Vec<Accelerator>)
    ensures
        rows@.len() == readings@.len(),
        forall|i: int| 0 <= i < readings@.len() ==> row_reflects(#[trigger] rows@[i], i, readings@[i]),
        forall|i: int|
            0 <= i < rows@.len() ==> (#[trigger] rows@[i].memory matches Some(usage) ==> usage.used()
                <= usage.total()),
{
    let mut rows: Vec<Accelerator> = Vec::new();
    let mut i: usize = 0;
    while i < readings.len()
        invariant
            i <= readings.len(),
            rows@.len() == i,
            forall|k: int| 0 <= k < i ==> row_reflects(#[trigger] rows@[k], k, readings@[k]),
            forall|k: int|
                0 <= k < i ==> (#[trigger] rows@[k].memory matches Some(usage) ==> usage.used()
                    <= usage.total()),
        decreases readings.len() - i,
    {
        let row = accelerator_row(i, &readings[i]);
        rows.push(row);
        i = i + 1;
    }
    rows
}

/// Merges the readings of one tick into a snapshot.
///
/// Only a missing host reading fails the tick. Missing accelerators, a
/// missing process and a log that could not be read each leave their own
/// field empty and touch no other. Of several processes with the watched
/// name the first is taken, and at most `METRIC_CAP` log texts are kept.
pub fn build_snapshot(
    host: Option<HostReading>,
    devices: Option<Vec<DeviceReading>>,
    candidates: &Vec<ProcessUsage>,
    log: LogReport,
) -> (r: Result<Snapshot, TickError>)
    ensures
        host is None ==> r == Err::<Snapshot, TickError>(TickError::HostProbeFailed),
        host matches Some(reading) ==> (r matches Ok(snapshot) && {
            &&& snapshot.cpu() == reading.cpu_hundredths
            &&& usage_reflects(snapshot.host_memory(), reading.memory)
            &&& rows_reflect(snapshot.rows(), devices)
            &&& snapshot.watched() == first_of(candidates@)
            &&& snapshot.metrics() == at_most(texts(log.metrics@), METRIC_CAP as nat)
            &&& snapshot.log_failed() == log.open_failed
            &&& memory_consistent(snapshot)
        }),
{
    match host {
        None => Err(TickError::HostProbeFailed),
        Some(reading) => {
            let memory = MemoryUsage::new(reading.memory.used_bytes, reading.memory.total_bytes);
            let accelerators = match &devices {
                Some(readings) => Some(accelerator_rows(readings)),
                None => None,
            };
            let process = if candidates.len() > 0 {
                Some(candidates[0])
            } else {
                None
            };
            let ghost given = texts(log.metrics@);
            let mut log_metrics = log.metrics;
            if log_metrics.len() > METRIC_CAP {
                log_metrics.truncate(METRIC_CAP);
            }
            assert(texts(log_metrics@) =~= at_most(given, METRIC_CAP as nat));
            Ok(
                Snapshot {
                    cpu_hundredths: reading.cpu_hundredths,
                    memory,
                    accelerators,
                    process,
                    log_metrics,
                    log_open_failed: log.open_failed,
                },
            )
        },
    }
}

} // verus!
