//! The dashboard: what each panel of the full-screen presentation shows for
//! a snapshot. Drawing the panels is left to the terminal.

use vstd::prelude::*;
use crate::config::Configuration;
use crate::logtail::texts;
use crate::render::{
    cpu_line, hundredths_line, memory_line, memory_pair_line, not_found_line, numbered_line,
    push_line, quoted_line,
};
use crate::snapshot::{borrowed_rows, Accelerator, MemoryUsage, Snapshot};
use crate::text::{decimal, hundredths, megabytes, whole_megabytes};

verus! {

/// Rows of the screen that the banner takes.
pub const BANNER_HEIGHT: u16 = 5;

/// Rows of the screen that the processor panel takes.
pub const CPU_PANEL_HEIGHT: u16 = 3;

/// Rows of the screen that the memory panel takes.
pub const MEMORY_PANEL_HEIGHT: u16 = 3;

/// What the banner says of the machine. It is gathered once, when the
/// dashboard starts.
#[derive(Debug)]
pub struct BannerInfo {
    pub user: String,
    pub host: String,
    pub os_label: String,
    pub gpu_summary: String,
}

/// A bordered panel: its title and the lines inside.
#[derive(Debug)]
pub struct Panel {
    pub title: String,
    pub lines: Vec<String>,
}

/// What the dashboard shows in one tick, from the top down. The bottom panel
/// fills what the three above leave of the screen.
#[derive(Debug)]
pub struct DashboardFrame {
    pub banner: Vec<String>,
    pub cpu: Panel,
    pub memory: Panel,
    pub bottom: Panel,
}

/// The accelerator that the dashboard shows: the first, where there is one.
pub open spec fn shown_accelerator(rows: Option<Seq<Accelerator>>) -> Option<Accelerator> {
    match rows {
        Some(list) => if list.len() > 0 {
            Some(list[0])
        } else {
            None
        },
        None => None,
    }
}

/// The banner's summary of accelerator memory: the total of the first
/// accelerator in whole megabytes, where it is known.
pub open spec fn gpu_summary_text(rows: Option<Seq<Accelerator>>) -> Seq<char> {
    match shown_accelerator(rows) {
        Some(row) => match row.memory {
            Some(memory) => "GPU: "@ + decimal(megabytes(memory.total())) + " MB"@,
            None => "No GPU detected"@,
        },
        None => "No GPU detected"@,
    }
}

/// What stands at the left of each banner line: one of two faces, by turns.
pub open spec fn face(awake: bool) -> Seq<char> {
    if awake {
        "  ʕ •ᴥ•ʔ                "@
    } else {
        "  ʕ -ᴥ-ʔ                "@
    }
}

/// The five lines of the banner.
pub open spec fn banner_lines(
    user: Seq<char>,
    host: Seq<char>,
    os_label: Seq<char>,
    gpu_summary: Seq<char>,
    awake: bool,
) -> Seq<Seq<char>> {
    seq![
        ""@,
        face(awake) + "LLM Training Monitor v0.1.0"@,
        face(awake) + " User: "@ + user + "@"@ + host + " | OS: "@ + os_label,
        face(awake) + " "@ + gpu_summary,
        "        "@,
    ]
}

/// The model of a panel: its title and its lines.
pub open spec fn panel_view(panel: Panel) -> (Seq<char>, Seq<Seq<char>>) {
    (panel.title@, texts(panel.lines@))
}

/// The processor panel.
pub open spec fn cpu_panel(cpu_hundredths: u64) -> (Seq<char>, Seq<Seq<char>>) {
    ("CPU Info"@, seq![cpu_line(cpu_hundredths)])
}

/// The memory panel.
pub open spec fn memory_panel(memory: MemoryUsage) -> (Seq<char>, Seq<Seq<char>>) {
    ("System Memory"@, seq![memory_line(memory)])
}

/// The lines of the accelerator panel: one for each field that was read.
pub open spec fn accelerator_panel_lines(row: Accelerator) -> Seq<Seq<char>> {
    (match row.utilization_percent {
        Some(percent) => seq!["GPU Usage: "@ + decimal(percent as nat) + ".00%"@],
        None => Seq::empty(),
    }) + (match row.memory {
        Some(memory) => seq![
            "Memory: "@ + decimal(megabytes(memory.used())) + " / "@ + decimal(
                megabytes(memory.total()),
            ) + " MB"@,
        ],
        None => Seq::empty(),
    }) + (match row.temperature_celsius {
        Some(celsius) => seq!["Temperature: "@ + decimal(celsius as nat) + "°C"@],
        None => Seq::empty(),
    })
}

/// The bottom panel. Where an accelerator is known its panel takes the
/// place; otherwise the panel of the watched process stands there, or the
/// one that says that the process was not found.
pub open spec fn bottom_panel(name: Seq<char>, snapshot: Snapshot) -> (Seq<char>, Seq<Seq<char>>) {
    match shown_accelerator(snapshot.rows()) {
        Some(row) => ("GPU Info"@, accelerator_panel_lines(row)),
        None => match snapshot.watched() {
            Some(usage) => (
                "Process: "@ + name,
                seq![
                    "CPU Usage: "@ + hundredths(usage.cpu_hundredths as nat) + "%"@,
                    "Memory Usage: "@ + decimal(megabytes(usage.memory_bytes as nat)) + " MB"@,
                ],
            ),
            None => ("Process Info"@, seq![not_found_line(name)]),
        },
    }
}

/// The banner's summary of accelerator memory, from the accelerators that
/// were found when the dashboard started.
pub fn gpu_summary(rows: Option<&Vec<Accelerator>>) -> (summary: String)
    ensures
        summary@ == gpu_summary_text(borrowed_rows(rows)),
{
    match first_accelerator(rows) {
        Some(row) => match &row.memory {
            Some(memory) => numbered_line("GPU: ", whole_megabytes(memory.total_bytes()), " MB"),
            None => String::from_str("No GPU detected"),
        },
        None => String::from_str("No GPU detected"),
    }
}

/// The accelerator that the dashboard shows.
pub fn first_accelerator(rows: Option<&Vec<Accelerator>>) -> (row: Option<Accelerator>)
    ensures
        row == shown_accelerator(borrowed_rows(rows)),
{
    match rows {
        Some(list) => if list.len() > 0 {
            Some(list[0])
        } else {
            None
        },
        None => None,
    }
}

/// The five lines of the banner, with the face that is due.
pub fn render_banner(info: &BannerInfo, awake: bool) -> (lines: Vec<String>)
    ensures
        texts(lines@) == banner_lines(
            info.user@,
            info.host@,
            info.os_label@,
            info.gpu_summary@,
            awake,
        ),
{
    let face: &str = if awake {
        "  ʕ •ᴥ•ʔ                "
    } else {
        "  ʕ -ᴥ-ʔ                "
    };
    let mut lines: Vec<String> = Vec::new();
    push_line(&mut lines, String::from_str(""));
    push_line(&mut lines, quoted_line(face, "LLM Training Monitor v0.1.0", ""));
    let mut second = quoted_line(face, " User: ", info.user.as_str());
    second.append("@");
    second.append(info.host.as_str());
    second.append(" | OS: ");
    second.append(info.os_label.as_str());
    push_line(&mut lines, second);
    push_line(&mut lines, quoted_line(face, " ", info.gpu_summary.as_str()));
    push_line(&mut lines, String::from_str("        "));
    proof {
        reveal_strlit("");
        let want = banner_lines(info.user@, info.host@, info.os_label@, info.gpu_summary@, awake);
        assert(face@ + "LLM Training Monitor v0.1.0"@ + ""@ =~= want[1]);
        assert(texts(lines@) =~= want);
    }
    lines
}

/// The lines of the accelerator panel.
pub fn render_accelerator_lines(row: &Accelerator) -> (lines: Vec<String>)
    ensures
        texts(lines@) == accelerator_panel_lines(*row),
{
    let mut lines: Vec<String> = Vec::new();
    if let Some(percent) = row.utilization_percent {
        push_line(&mut lines, numbered_line("GPU Usage: ", percent as u64, ".00%"));
    }
    if let Some(memory) = &row.memory {
        push_line(&mut lines, memory_pair_line("Memory: ", memory, " MB"));
    }
    if let Some(celsius) = row.temperature_celsius {
        push_line(&mut lines, numbered_line("Temperature: ", celsius as u64, "°C"));
    }
    assert(texts(lines@) =~= accelerator_panel_lines(*row));
    lines
}

/// The bottom panel of the dashboard.
pub fn render_bottom_panel(config: &Configuration, snapshot: &Snapshot) -> (panel: Panel)
    ensures
        panel_view(panel) == bottom_panel(config.name(), *snapshot),
{
    let name = config.process_name();
    match first_accelerator(snapshot.accelerators()) {
        Some(row) => Panel {
            title: String::from_str("GPU Info"),
            lines: render_accelerator_lines(&row),
        },
        None => match snapshot.process() {
            Some(usage) => {
                let mut lines: Vec<String> = Vec::new();
                push_line(&mut lines, hundredths_line("CPU Usage: ", usage.cpu_hundredths, "%"));
                push_line(
                    &mut lines,
                    numbered_line("Memory Usage: ", whole_megabytes(usage.memory_bytes), " MB"),
                );
                let title = quoted_line("Process: ", name, "");
                proof {
                    reveal_strlit("");
                    assert(title@ =~= "Process: "@ + name@);
                    assert(texts(lines@) =~= bottom_panel(config.name(), *snapshot).1);
                }
                Panel { title, lines }
            },
            None => {
                let mut lines: Vec<String> = Vec::new();
                push_line(&mut lines, quoted_line("Process '", name, "' not found"));
                assert(texts(lines@) =~= seq![not_found_line(name@)]);
                Panel { title: String::from_str("Process Info"), lines }
            },
        },
    }
}

/// What the dashboard shows for a snapshot: the banner with the face that is
/// due, the processor panel, the memory panel and the bottom panel.
pub fn render_dashboard(
    config: &Configuration,
    info: &BannerInfo,
    snapshot: &Snapshot,
    awake: bool,
) -> (frame: DashboardFrame)
    ensures
        texts(frame.banner@) == banner_lines(
            info.user@,
            info.host@,
            info.os_label@,
            info.gpu_summary@,
            awake,
        ),
        panel_view(frame.cpu) == cpu_panel(snapshot.cpu()),
        panel_view(frame.memory) == memory_panel(snapshot.host_memory()),
        panel_view(frame.bottom) == bottom_panel(config.name(), *snapshot),
{
    let mut cpu_lines: Vec<String> = Vec::new();
    push_line(&mut cpu_lines, hundredths_line("CPU Usage: ", snapshot.cpu_hundredths(), "%"));
    assert(texts(cpu_lines@) =~= seq![cpu_line(snapshot.cpu())]);
    let mut memory_lines: Vec<String> = Vec::new();
    push_line(&mut memory_lines, memory_pair_line("Memory Usage: ", &snapshot.memory(), " MB"));
    assert(texts(memory_lines@) =~= seq![memory_line(snapshot.host_memory())]);
    DashboardFrame {
        banner: render_banner(info, awake),
        cpu: Panel { title: String::from_str("CPU Info"), lines: cpu_lines },
        memory: Panel { title: String::from_str("System Memory"), lines: memory_lines },
        bottom: render_bottom_panel(config, snapshot),
    }
}

/// Where no accelerator is known and no process of the watched name runs,
/// the bottom panel says that the process was not found, and names it.
pub proof fn dashboard_names_absent_process(name: Seq<char>, snapshot: Snapshot)
    requires
        shown_accelerator(snapshot.rows()) is None,
        snapshot.watched() is None,
    ensures
        bottom_panel(name, snapshot).1.contains(not_found_line(name)),
{
    assert(bottom_panel(name, snapshot).1[0] == not_found_line(name));
}

/// Where an accelerator is known its panel stands at the bottom, whether or
/// not the watched process runs.
pub proof fn accelerator_panel_takes_the_bottom(name: Seq<char>, snapshot: Snapshot)
    requires
        shown_accelerator(snapshot.rows()) is Some,
    ensures
        bottom_panel(name, snapshot) == (
            "GPU Info"@,
            accelerator_panel_lines(shown_accelerator(snapshot.rows())->0),
        ),
{
}

} // verus!
