//! The plain transcript: the block of lines that one tick appends to the
//! output stream.

use vstd::prelude::*;
use crate::config::Configuration;
use crate::logtail::texts;
use crate::snapshot::{borrowed_rows, Accelerator, MemoryUsage, ProcessUsage, Snapshot};
use crate::text::{decimal, hundredths, megabytes, push_decimal, push_hundredths, whole_megabytes};

verus! {

/// The title of the monitor for a watched process.
pub open spec fn title_line(name: Seq<char>) -> Seq<char> {
    "LLM Training Monitor - "@ + name
}

/// The line that ends the block of one tick.
pub open spec fn separator_line() -> Seq<char> {
    "-------------------"@
}

/// The line of the host's processor load.
pub open spec fn cpu_line(cpu_hundredths: u64) -> Seq<char> {
    "CPU Usage: "@ + hundredths(cpu_hundredths as nat) + "%"@
}

/// The line of the host's memory, in whole megabytes.
pub open spec fn memory_line(memory: MemoryUsage) -> Seq<char> {
    "Memory Usage: "@ + decimal(megabytes(memory.used())) + " / "@ + decimal(
        megabytes(memory.total()),
    ) + " MB"@
}

/// The line that says that no process of the watched name runs.
pub open spec fn not_found_line(name: Seq<char>) -> Seq<char> {
    "Process '"@ + name + "' not found"@
}

/// The line of the watched process's processor load.
pub open spec fn process_cpu_line(cpu_hundredths: u64) -> Seq<char> {
    "Process CPU Usage: "@ + hundredths(cpu_hundredths as nat) + "%"@
}

/// The line of the watched process's resident memory.
pub open spec fn process_memory_line(memory_bytes: u64) -> Seq<char> {
    "Process Memory Usage: "@ + decimal(megabytes(memory_bytes as nat)) + " MB"@
}

/// The lines on the watched process: its load and memory, or that it was not
/// found.
pub open spec fn process_block(name: Seq<char>, process: Option<ProcessUsage>) -> Seq<Seq<char>> {
    match process {
        Some(usage) => seq![
            process_cpu_line(usage.cpu_hundredths),
            process_memory_line(usage.memory_bytes),
        ],
        None => seq![not_found_line(name)],
    }
}

/// The line that says that no accelerator could be asked.
pub open spec fn no_accelerator_line() -> Seq<char> {
    "GPU information not available"@
}

/// The heading of one accelerator's lines.
pub open spec fn device_line(index: usize) -> Seq<char> {
    "GPU "@ + decimal(index as nat) + ":"@
}

/// The line of an accelerator's utilization.
pub open spec fn device_usage_line(percent: u32) -> Seq<char> {
    "  Usage: "@ + decimal(percent as nat) + "%"@
}

/// The line of an accelerator's memory, in whole megabytes.
pub open spec fn device_memory_line(memory: MemoryUsage) -> Seq<char> {
    "  Memory: "@ + decimal(megabytes(memory.used())) + " / "@ + decimal(
        megabytes(memory.total()),
    ) + " MB (Used/Total)"@
}

/// The line of an accelerator's temperature.
pub open spec fn device_temperature_line(celsius: u32) -> Seq<char> {
    "  Temperature: "@ + decimal(celsius as nat) + "°C"@
}

/// The lines of one accelerator: its heading, then a line for each field
/// that was read.
pub open spec fn device_block(row: Accelerator) -> Seq<Seq<char>> {
    seq![device_line(row.index)] + (match row.utilization_percent {
        Some(percent) => seq![device_usage_line(percent)],
        None => Seq::empty(),
    }) + (match row.memory {
        Some(memory) => seq![device_memory_line(memory)],
        None => Seq::empty(),
    }) + (match row.temperature_celsius {
        Some(celsius) => seq![device_temperature_line(celsius)],
        None => Seq::empty(),
    })
}

/// The lines of the given accelerators, in their order.
pub open spec fn devices_block(rows: Seq<Accelerator>) -> Seq<Seq<char>>
    decreases rows.len(),
{
    if rows.len() == 0 {
        Seq::empty()
    } else {
        devices_block(rows.drop_last()) + device_block(rows.last())
    }
}

/// The accelerator section: the lines of each device, or one line that says
/// that none could be asked.
pub open spec fn accelerator_block(rows: Option<Seq<Accelerator>>) -> Seq<Seq<char>> {
    match rows {
        Some(list) => devices_block(list),
        None => seq![no_accelerator_line()],
    }
}

/// The line that reports a log that could not be opened.
pub open spec fn log_failure_line() -> Seq<char> {
    "Failed to open log file"@
}

/// The line of one extracted metric.
pub open spec fn metric_line(metric: Seq<char>) -> Seq<char> {
    "Metric: "@ + metric
}

/// The lines of the extracted metrics, in their order.
pub open spec fn metric_lines(metrics: Seq<Seq<char>>) -> Seq<Seq<char>> {
    Seq::new(metrics.len(), |i: int| metric_line(metrics[i]))
}

/// The log section: the report of a log that could not be opened, if it
/// could not, then the extracted metrics.
pub open spec fn log_block(metrics: Seq<Seq<char>>, open_failed: bool) -> Seq<Seq<char>> {
    (if open_failed {
        seq![log_failure_line()]
    } else {
        Seq::empty()
    }) + metric_lines(metrics)
}

/// The block of lines of one tick: title, processor, accelerators, memory,
/// process, log, separator.
pub open spec fn transcript(name: Seq<char>, snapshot: Snapshot) -> Seq<Seq<char>> {
    seq![title_line(name), cpu_line(snapshot.cpu())] + accelerator_block(snapshot.rows()) + seq![
        memory_line(snapshot.host_memory()),
    ] + process_block(name, snapshot.watched()) + log_block(
        snapshot.metrics(),
        snapshot.log_failed(),
    ) + seq![separator_line()]
}

/// Appends one line to a block.
pub fn push_line(out: &mut Vec<String>, line: String)
    ensures
        texts(final(out)@) == texts(old(out)@) + seq![line@],
{
    out.push(line);
    assert(texts(out@) =~= texts(old(out)@) + seq![line@]);
}

/// The line that `prefix`, the number `n` and `suffix` make.
pub fn numbered_line(prefix: &str, n: u64, suffix: &str) -> (line: String)
    ensures
        line@ == prefix@ + decimal(n as nat) + suffix@,
{
    let mut line = String::from_str(prefix);
    push_decimal(&mut line, n);
    line.append(suffix);
    line
}

/// The line that `prefix`, the value `h` in hundredths and `suffix` make.
pub fn hundredths_line(prefix: &str, h: u64, suffix: &str) -> (line: String)
    ensures
        line@ == prefix@ + hundredths(h as nat) + suffix@,
{
    let mut line = String::from_str(prefix);
    push_hundredths(&mut line, h);
    line.append(suffix);
    line
}

/// The line that `prefix`, the used and the total megabytes of `memory` and
/// `suffix` make.
pub fn memory_pair_line(prefix: &str, memory: &MemoryUsage, suffix: &str) -> (line: String)
    ensures
        line@ == prefix@ + decimal(megabytes(memory.used())) + " / "@ + decimal(
            megabytes(memory.total()),
        ) + suffix@,
{
    let mut line = String::from_str(prefix);
    push_decimal(&mut line, whole_megabytes(memory.used_bytes()));
    line.append(" / ");
    push_decimal(&mut line, whole_megabytes(memory.total_bytes()));
    line.append(suffix);
    line
}

/// The line that `prefix`, `text` and `suffix` make.
pub fn quoted_line(prefix: &str, text: &str, suffix: &str) -> (line: String)
    ensures
        line@ == prefix@ + text@ + suffix@,
{
    let mut line = String::from_str(prefix);
    line.append(text);
    line.append(suffix);
    line
}

/// Appends the lines on the watched process.
pub fn push_process_block(out: &mut Vec<String>, name: &str, process: Option<ProcessUsage>)
    ensures
        texts(final(out)@) == texts(old(out)@) + process_block(name@, process),
{
    match process {
        Some(usage) => {
            push_line(out, hundredths_line("Process CPU Usage: ", usage.cpu_hundredths, "%"));
            push_line(
                out,
                numbered_line("Process Memory Usage: ", whole_megabytes(usage.memory_bytes), " MB"),
            );
        },
        None => {
            push_line(out, quoted_line("Process '", name, "' not found"));
        },
    }
    assert(texts(out@) =~= texts(old(out)@) + process_block(name@, process));
}

/// Appends the lines of one accelerator.
pub fn push_device_block(out: &mut Vec<String>, row: &Accelerator)
    ensures
        texts(final(out)@) == texts(old(out)@) + device_block(*row),
{
    push_line(out, numbered_line("GPU ", row.index as u64, ":"));
    if let Some(percent) = row.utilization_percent {
        push_line(out, numbered_line("  Usage: ", percent as u64, "%"));
    }
    if let Some(memory) = &row.memory {
        push_line(out, memory_pair_line("  Memory: ", memory, " MB (Used/Total)"));
    }
    if let Some(celsius) = row.temperature_celsius {
        push_line(out, numbered_line("  Temperature: ", celsius as u64, "°C"));
    }
    assert(texts(out@) =~= texts(old(out)@) + device_block(*row));
}

/// Appends the accelerator section.
pub fn push_accelerator_block(out: &mut Vec<String>, rows: Option<&Vec<Accelerator>>)
    ensures
        texts(final(out)@) == texts(old(out)@) + accelerator_block(borrowed_rows(rows)),
{
    match rows {
        None => {
            push_line(out, String::from_str("GPU information not available"));
        },
        Some(list) => {
            let mut i: usize = 0;
            assert(texts(out@) =~= texts(old(out)@) + devices_block(list@.take(0)));
            while i < list.len()
                invariant
                    i <= list.len(),
                    texts(out@) == texts(old(out)@) + devices_block(list@.take(i as int)),
                decreases list.len() - i,
            {
                let ghost next = list@.take(i + 1);
                assert(next.drop_last() =~= list@.take(i as int));
                assert(next.last() == list@[i as int]);
                push_device_block(out, &list[i]);
                assert(texts(out@) =~= texts(old(out)@) + devices_block(next));
                i = i + 1;
            }
            assert(list@.take(i as int) =~= list@);
        },
    }
}

/// Appends the log section.
pub fn push_log_block(out: &mut Vec<String>, metrics: &Vec<String>, open_failed: bool)
    ensures
        texts(final(out)@) == texts(old(out)@) + log_block(texts(metrics@), open_failed),
{
    if open_failed {
        push_line(out, String::from_str("Failed to open log file"));
    }
    let ghost head = texts(out@);
    let ghost all = metric_lines(texts(metrics@));
    let mut i: usize = 0;
    assert(texts(out@) =~= head + all.take(0));
    while i < metrics.len()
        invariant
            i <= metrics.len(),
            all == metric_lines(texts(metrics@)),
            texts(out@) == head + all.take(i as int),
        decreases metrics.len() - i,
    {
        push_line(out, quoted_line("Metric: ", metrics[i].as_str(), ""));
        proof {
            reveal_strlit("");
            assert("Metric: "@ + metrics@[i as int]@ + ""@ =~= all[i as int]);
            assert(texts(out@) =~= head + all.take(i + 1));
        }
        i = i + 1;
    }
    assert(all.take(i as int) =~= all);
    assert(texts(out@) =~= texts(old(out)@) + log_block(texts(metrics@), open_failed));
}

/// The block of lines that one tick appends to the transcript.
pub fn render_transcript(config: &Configuration, snapshot: &Snapshot) -> (lines: Vec<String>)
    ensures
        texts(lines@) == transcript(config.name(), *snapshot),
{
    let name = config.process_name();
    let mut lines: Vec<String> = Vec::new();
    push_line(&mut lines, quoted_line("LLM Training Monitor - ", name, ""));
    push_line(&mut lines, hundredths_line("CPU Usage: ", snapshot.cpu_hundredths(), "%"));
    proof {
        reveal_strlit("");
        assert("LLM Training Monitor - "@ + name@ + ""@ =~= title_line(name@));
        assert(texts(lines@) =~= seq![title_line(name@), cpu_line(snapshot.cpu())]);
    }
    push_accelerator_block(&mut lines, snapshot.accelerators());
    push_line(&mut lines, memory_pair_line("Memory Usage: ", &snapshot.memory(), " MB"));
    push_process_block(&mut lines, name, snapshot.process());
    push_log_block(&mut lines, snapshot.log_metrics(), snapshot.log_open_failed());
    push_line(&mut lines, String::from_str("-------------------"));
    lines
}

/// Where no process of the watched name runs, the transcript holds the line
/// that says so and names the process.
pub proof fn absent_process_is_named(name: Seq<char>, snapshot: Snapshot)
    requires
        snapshot.watched() is None,
    ensures
        transcript(name, snapshot).contains(not_found_line(name)),
{
    sections_always_shown(name, snapshot);
    assert(process_block(name, snapshot.watched())[0] == not_found_line(name));
}

/// Whatever became of the accelerators and of the log, the transcript holds
/// the title, the host's processor and memory lines and every line on the
/// process, the processor line before the memory line and that before the
/// lines on the process.
pub proof fn sections_always_shown(name: Seq<char>, snapshot: Snapshot)
    ensures
        transcript(name, snapshot)[0] == title_line(name),
        transcript(name, snapshot)[1] == cpu_line(snapshot.cpu()),
        transcript(name, snapshot).contains(memory_line(snapshot.host_memory())),
        forall|k: int|
            0 <= k < process_block(name, snapshot.watched()).len() ==> transcript(
                name,
                snapshot,
            ).contains(#[trigger] process_block(name, snapshot.watched())[k]),
        transcript(name, snapshot).last() == separator_line(),
{
    let all = transcript(name, snapshot);
    let devices = accelerator_block(snapshot.rows());
    let process = process_block(name, snapshot.watched());
    let at: int = 2 + devices.len() as int;
    assert(all[at] == memory_line(snapshot.host_memory()));
    assert forall|k: int| 0 <= k < process.len() implies all.contains(#[trigger] process[k]) by {
        assert(all[at + 1 + k] == process[k]);
    }
}

} // verus!
