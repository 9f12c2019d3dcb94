//! The diagnostic collector: one report of the system, the adapters and
//! the fallback manager's state, and its rendering as plain text.
//!
//! Nothing is decided here. The facts about the system come from the
//! probe, which runs outside this library.

use crate::gpu::detect::{detect_all_gpus, detect_all_gpus_spec, ProbeOutput, ProbeOutputView};
use crate::gpu::device::{gpu_views, GpuInfo, GpuInfoView};
use crate::gpu::fallback::{
    event_views, FallbackEvent, FallbackEventView, FallbackManager, FallbackManagerView,
};
use crate::gpu::version::{architecture_name, memory_text};
use crate::text::chars::{chars_of, string_of, text_views, trim, trim_spec};
use crate::text::compose::{
    line_spec, optional_line_spec, or_unknown, or_unknown_spec, push_line, push_optional_line,
    quantity, quantity_spec,
};
use crate::text::number::{decimal, decimal_spec, parse_unsigned, parse_unsigned_spec};
use crate::text::search::{
    starts_with, starts_with_spec, trim_start_matches, trim_start_matches_spec,
};
use crate::text::split::{first_where, lemma_first_where_extends, lines, lines_spec, views};
use crate::time::{
    current_time, elapsed_seconds, instant_now, time_text, time_text_spec, Timestamp,
};
use vstd::prelude::*;

verus! {

/// The version of the application that reports name.
pub open spec fn app_version_spec() -> Seq<char> {
    "0.1.0"@
}

/// How many of the most recent fallbacks a report lists.
pub open spec fn recent_limit() -> nat {
    5
}

/// What the system probe printed about the machine.
#[derive(Debug)]
pub struct SystemProbeOutput {
    /// The name of the operating system.
    pub os: String,
    /// The answer to the version query.
    pub version_query: Option<String>,
    /// The answer to the processor query, with a line `Name=<name>`.
    pub cpu_query: Option<String>,
    /// The answer to the memory query, with a line
    /// `TotalPhysicalMemory=<bytes>`.
    pub memory_query: Option<String>,
}

/// What the system probe printed about the machine, as character
/// sequences.
pub struct SystemProbeOutputView {
    pub os: Seq<char>,
    pub version_query: Option<Seq<char>>,
    pub cpu_query: Option<Seq<char>>,
    pub memory_query: Option<Seq<char>>,
}

impl View for SystemProbeOutput {
    type V = SystemProbeOutputView;

    open spec fn view(&self) -> SystemProbeOutputView {
        SystemProbeOutputView {
            os: self.os@,
            version_query: self.version_query.deep_view(),
            cpu_query: self.cpu_query.deep_view(),
            memory_query: self.memory_query.deep_view(),
        }
    }
}

/// The machine a report is about.
#[derive(Debug)]
pub struct SystemInfo {
    pub os: String,
    pub os_version: String,
    pub cpu: String,
    pub memory_mb: u64,
}

/// The machine a report is about, with its texts as character sequences.
pub struct SystemInfoView {
    pub os: Seq<char>,
    pub os_version: Seq<char>,
    pub cpu: Seq<char>,
    pub memory_mb: u64,
}

impl View for SystemInfo {
    type V = SystemInfoView;

    open spec fn view(&self) -> SystemInfoView {
        SystemInfoView {
            os: self.os@,
            os_version: self.os_version@,
            cpu: self.cpu@,
            memory_mb: self.memory_mb,
        }
    }
}

impl Clone for SystemInfo {
    fn clone(&self) -> (copy: Self)
        ensures
            copy == *self,
    {
        SystemInfo {
            os: self.os.clone(),
            os_version: self.os_version.clone(),
            cpu: self.cpu.clone(),
            memory_mb: self.memory_mb,
        }
    }
}

/// The running application in a report.
#[derive(Debug)]
pub struct RuntimeInfo {
    pub app_version: String,
    pub compute_device: String,
    pub fallback_count: u32,
    pub uptime_seconds: u64,
}

/// The running application in a report, with its texts as character
/// sequences.
pub struct RuntimeInfoView {
    pub app_version: Seq<char>,
    pub compute_device: Seq<char>,
    pub fallback_count: u32,
    pub uptime_seconds: u64,
}

impl View for RuntimeInfo {
    type V = RuntimeInfoView;

    open spec fn view(&self) -> RuntimeInfoView {
        RuntimeInfoView {
            app_version: self.app_version@,
            compute_device: self.compute_device@,
            fallback_count: self.fallback_count,
            uptime_seconds: self.uptime_seconds,
        }
    }
}

impl Clone for RuntimeInfo {
    fn clone(&self) -> (copy: Self)
        ensures
            copy == *self,
    {
        RuntimeInfo {
            app_version: self.app_version.clone(),
            compute_device: self.compute_device.clone(),
            fallback_count: self.fallback_count,
            uptime_seconds: self.uptime_seconds,
        }
    }
}

/// A diagnostic report.
#[derive(Debug)]
pub struct DiagnosticReport {
    pub generated_at: Timestamp,
    pub system: SystemInfo,
    pub gpus: Vec<GpuInfo>,
    pub runtime: RuntimeInfo,
    /// The most recent fallbacks, oldest first, each as its time and its
    /// reason.
    pub recent_errors: Vec<String>,
}

/// A diagnostic report, with its texts as character sequences.
pub struct DiagnosticReportView {
    pub generated_at: Timestamp,
    pub system: SystemInfoView,
    pub gpus: Seq<GpuInfoView>,
    pub runtime: RuntimeInfoView,
    pub recent_errors: Seq<Seq<char>>,
}

impl View for DiagnosticReport {
    type V = DiagnosticReportView;

    open spec fn view(&self) -> DiagnosticReportView {
        DiagnosticReportView {
            generated_at: self.generated_at,
            system: self.system@,
            gpus: gpu_views(self.gpus@),
            runtime: self.runtime@,
            recent_errors: text_views(self.recent_errors@),
        }
    }
}

/// The first of the lines that start with `label`, without the label,
/// however often it is repeated, and trimmed.
pub open spec fn labelled_value_spec(text: Seq<char>, label: Seq<char>) -> Option<Seq<char>> {
    match first_where(lines_spec(text), |line: Seq<char>| starts_with_spec(line, label)) {
        Some(line) => Some(trim_spec(trim_start_matches_spec(line, label))),
        None => None,
    }
}

/// The version of the operating system: the trimmed answer, or `Unknown`
/// without an answer.
pub open spec fn os_version_spec(answer: Option<Seq<char>>) -> Seq<char> {
    match answer {
        Some(text) => trim_spec(text),
        None => "Unknown"@,
    }
}

/// The name of the processor: the value of the `Name=` line, or
/// `Unknown` without one.
pub open spec fn cpu_name_spec(answer: Option<Seq<char>>) -> Seq<char> {
    match answer {
        Some(text) => match labelled_value_spec(text, "Name="@) {
            Some(name) => name,
            None => "Unknown"@,
        },
        None => "Unknown"@,
    }
}

/// The memory of the machine in megabytes: from the byte count of the
/// `TotalPhysicalMemory=` line, or zero without a count.
pub open spec fn system_memory_mb_spec(answer: Option<Seq<char>>) -> u64 {
    match answer {
        Some(text) => match labelled_value_spec(text, "TotalPhysicalMemory="@) {
            Some(value) => match parse_unsigned_spec(value, u64::MAX as nat) {
                Some(bytes) => (bytes / 1024 / 1024) as u64,
                None => 0,
            },
            None => 0,
        },
        None => 0,
    }
}

/// The machine that the probe's answers describe.
pub open spec fn system_info_spec(probe: SystemProbeOutputView) -> SystemInfoView {
    SystemInfoView {
        os: probe.os,
        os_version: os_version_spec(probe.version_query),
        cpu: cpu_name_spec(probe.cpu_query),
        memory_mb: system_memory_mb_spec(probe.memory_query),
    }
}

/// The running application as a report shows it: on an unknown device
/// and without fallbacks where there is no manager.
pub open spec fn runtime_info_spec(
    manager: Option<FallbackManagerView>,
    uptime_seconds: u64,
) -> RuntimeInfoView {
    RuntimeInfoView {
        app_version: app_version_spec(),
        compute_device: match manager {
            Some(state) => state.current_device.text(),
            None => "Unknown"@,
        },
        fallback_count: match manager {
            Some(state) => state.fallback_count,
            None => 0,
        },
        uptime_seconds,
    }
}

/// How a report lists one fallback: its time and its reason.
pub open spec fn error_entry_spec(event: FallbackEventView) -> Seq<char> {
    time_text_spec(event.timestamp) + ": "@ + event.reason
}

/// Where the listed part of a history starts.
pub open spec fn recent_start(history: Seq<FallbackEventView>) -> int {
    if history.len() > recent_limit() {
        history.len() - recent_limit()
    } else {
        0
    }
}

/// The entries of the most recent fallbacks, oldest first.
pub open spec fn recent_errors_spec(history: Seq<FallbackEventView>) -> Seq<Seq<char>> {
    Seq::new(
        (history.len() - recent_start(history)) as nat,
        |i: int| error_entry_spec(history[recent_start(history) + i]),
    )
}

/// The report on the probe's answers and a manager's state, generated at
/// a given time after a given uptime.
pub open spec fn report_spec(
    system: SystemProbeOutputView,
    adapters: ProbeOutputView,
    manager: Option<FallbackManagerView>,
    generated_at: Timestamp,
    uptime_seconds: u64,
) -> DiagnosticReportView {
    DiagnosticReportView {
        generated_at,
        system: system_info_spec(system),
        gpus: detect_all_gpus_spec(adapters.adapters),
        runtime: runtime_info_spec(manager, uptime_seconds),
        recent_errors: match manager {
            Some(state) => recent_errors_spec(state.history),
            None => Seq::empty(),
        },
    }
}

/// The state of a manager that may be missing.
pub open spec fn manager_view(manager: Option<&FallbackManager>) -> Option<FallbackManagerView> {
    match manager {
        Some(manager) => Some(manager@),
        None => None,
    }
}

/// The head of a report's text, with the time of generation.
pub open spec fn header_spec(generated_at: Timestamp) -> Seq<char> {
    "========== 诊断报告 ==========\n\n"@ + line_spec(
        "生成时间: "@,
        time_text_spec(generated_at) + " UTC\n"@,
    )
}

/// The section of a report's text on the machine.
pub open spec fn system_section_spec(system: SystemInfoView) -> Seq<char> {
    "--- System Info ---\n"@ + line_spec("操作系统: "@, system.os + " "@ + system.os_version) + line_spec(
        "CPU: "@,
        system.cpu,
    ) + line_spec("内存: "@, quantity_spec(system.memory_mb as nat, " MB\n"@))
}

/// The lines of a report's text on the adapter at `index`.
pub open spec fn gpu_entry_spec(index: nat, gpu: GpuInfoView) -> Seq<char> {
    line_spec("GPU "@, quantity_spec(index, ": "@) + or_unknown_spec(gpu.name)) + line_spec(
        "  厂商: "@,
        gpu.vendor.label_spec(),
    ) + optional_line_spec("  架构: "@, architecture_name(gpu.architecture)) + optional_line_spec(
        "  显存: "@,
        memory_text(gpu.memory_mb),
    ) + optional_line_spec("  驱动: "@, gpu.driver_version) + optional_line_spec(
        "  CUDA: "@,
        gpu.cuda_version,
    )
}

/// The lines of a report's text on all adapters, in order.
pub open spec fn gpu_entries_spec(gpus: Seq<GpuInfoView>) -> Seq<char>
    decreases gpus.len(),
{
    if gpus.len() == 0 {
        Seq::empty()
    } else {
        gpu_entries_spec(gpus.drop_last()) + gpu_entry_spec((gpus.len() - 1) as nat, gpus.last())
    }
}

/// The section of a report's text on the adapters.
pub open spec fn gpu_section_spec(gpus: Seq<GpuInfoView>) -> Seq<char> {
    "--- GPU Info ---\n"@ + gpu_entries_spec(gpus) + "\n"@
}

/// The section of a report's text on the running application.
pub open spec fn runtime_section_spec(runtime: RuntimeInfoView) -> Seq<char> {
    "--- Runtime Info ---\n"@ + line_spec("应用版本: "@, runtime.app_version) + line_spec(
        "计算设备: "@,
        runtime.compute_device,
    ) + line_spec("降级次数: "@, decimal_spec(runtime.fallback_count as nat)) + line_spec(
        "运行时间: "@,
        quantity_spec(runtime.uptime_seconds as nat, " 秒\n"@),
    )
}

/// The lines of a report's text that list fallbacks.
pub open spec fn error_lines_spec(errors: Seq<Seq<char>>) -> Seq<char>
    decreases errors.len(),
{
    if errors.len() == 0 {
        Seq::empty()
    } else {
        error_lines_spec(errors.drop_last()) + line_spec("  "@, errors.last())
    }
}

/// The section of a report's text on recent fallbacks: no text at all
/// where there were none.
pub open spec fn errors_section_spec(errors: Seq<Seq<char>>) -> Seq<char> {
    if errors.len() == 0 {
        Seq::empty()
    } else {
        "--- Recent Errors ---\n"@ + error_lines_spec(errors)
    }
}

/// The text of a report: head, machine, adapters, application, recent
/// fallbacks, and a closing rule.
pub open spec fn report_text_spec(report: DiagnosticReportView) -> Seq<char> {
    header_spec(report.generated_at) + system_section_spec(report.system) + gpu_section_spec(
        report.gpus,
    ) + runtime_section_spec(report.runtime) + errors_section_spec(report.recent_errors)
        + "\n==============================\n"@
}

fn labelled_value(text: &str, label: &str) -> (value: Option<Vec<char>>)
    ensures
        match value {
            Some(value) => labelled_value_spec(text@, label@) == Some(value@),
            None => labelled_value_spec(text@, label@) is None,
        },
{
    let all_chars = chars_of(text);
    let all_lines = lines(&all_chars);
    let prefix = chars_of(label);
    let ghost all = views(all_lines@);
    let ghost wanted = |line: Seq<char>| starts_with_spec(line, label@);
    let mut i: usize = 0;
    assert(all.take(0) == Seq::<Seq<char>>::empty());
    while i < all_lines.len()
        invariant
            i <= all_lines.len(),
            all == views(all_lines@),
            all == lines_spec(text@),
            prefix@ == label@,
            wanted == |line: Seq<char>| starts_with_spec(line, label@),
            first_where(all.take(i as int), wanted) is None,
        decreases all_lines.len() - i,
    {
        proof {
            let next = all.take(i + 1);
            assert(next.drop_last() == all.take(i as int));
            assert(next.last() == all_lines@[i as int]@);
        }
        if starts_with(&all_lines[i], &prefix) {
            proof {
                lemma_first_where_extends(all, wanted, i as int);
            }
            let rest = trim_start_matches(&all_lines[i], &prefix);
            return Some(trim(&rest));
        }
        i += 1;
    }
    assert(all.take(all_lines.len() as int) == all);
    None
}

fn os_version(answer: &Option<String>) -> (version: String)
    ensures
        version@ == os_version_spec(answer.deep_view()),
{
    match answer {
        Some(text) => {
            let all = chars_of(text.as_str());
            string_of(&trim(&all))
        },
        None => String::from_str("Unknown"),
    }
}

fn cpu_name(answer: &Option<String>) -> (name: String)
    ensures
        name@ == cpu_name_spec(answer.deep_view()),
{
    match answer {
        Some(text) => match labelled_value(text.as_str(), "Name=") {
            Some(name) => string_of(&name),
            None => String::from_str("Unknown"),
        },
        None => String::from_str("Unknown"),
    }
}

fn system_memory_mb(answer: &Option<String>) -> (memory: u64)
    ensures
        memory == system_memory_mb_spec(answer.deep_view()),
{
    match answer {
        Some(text) => match labelled_value(text.as_str(), "TotalPhysicalMemory=") {
            Some(value) => match parse_unsigned(&value, u64::MAX) {
                Some(bytes) => bytes / 1024 / 1024,
                None => 0,
            },
            None => 0,
        },
        None => 0,
    }
}

fn error_entry(event: &FallbackEvent) -> (entry: String)
    ensures
        entry@ == error_entry_spec(event@),
{
    let mut entry = time_text(&event.timestamp);
    entry.append(": ");
    entry.append(event.reason.as_str());
    entry
}

fn recent_errors(history: &Vec<FallbackEvent>) -> (entries: Vec<String>)
    ensures
        text_views(entries@) == recent_errors_spec(event_views(history@)),
{
    let total: usize = history.len();
    let start: usize = if total > 5 {
        total - 5
    } else {
        0
    };
    let ghost all = event_views(history@);
    let mut entries: Vec<String> = Vec::new();
    let mut i: usize = start;
    while i < total
        invariant
            start <= i <= total,
            total == history.len(),
            all == event_views(history@),
            start == recent_start(all),
            entries.len() == i - start,
            forall|k: int| 0 <= k < i - start ==> (#[trigger] entries@[k])@ == error_entry_spec(all[start + k]),
        decreases total - i,
    {
        let entry = error_entry(&history[i]);
        entries.push(entry);
        i += 1;
    }
    assert(text_views(entries@) =~= recent_errors_spec(all));
    entries
}

fn push_gpu_entry(out: &mut String, index: usize, gpu: &GpuInfo)
    ensures
        final(out)@ == old(out)@ + gpu_entry_spec(index as nat, gpu@),
{
    let mut title = quantity(index as u64, ": ");
    title.append(or_unknown(&gpu.name));
    push_line(out, "GPU ", title.as_str());
    push_line(out, "  厂商: ", gpu.vendor.label());
    let architecture = match gpu.architecture {
        Some(architecture) => Some(String::from_str(architecture.name())),
        None => None,
    };
    push_optional_line(out, "  架构: ", &architecture);
    let memory = match gpu.memory_mb {
        Some(memory) => Some(quantity(memory, " MB")),
        None => None,
    };
    push_optional_line(out, "  显存: ", &memory);
    push_optional_line(out, "  驱动: ", &gpu.driver_version);
    push_optional_line(out, "  CUDA: ", &gpu.cuda_version);
    assert(out@ =~= old(out)@ + gpu_entry_spec(index as nat, gpu@));
}

/// Renders a report as plain text, with one section each for the
/// machine, the adapters, the running application and, where there were
/// any, the recent fallbacks.
pub fn render_report(report: &DiagnosticReport) -> (text: String)
    ensures
        text@ == report_text_spec(report@),
{
    let mut text = String::new();
    text.append("========== 诊断报告 ==========\n\n");
    let mut generated = time_text(&report.generated_at);
    generated.append(" UTC\n");
    push_line(&mut text, "生成时间: ", generated.as_str());
    assert(text@ =~= header_spec(report@.generated_at));

    let ghost head = text@;
    text.append("--- System Info ---\n");
    let mut os = report.system.os.clone();
    os.append(" ");
    os.append(report.system.os_version.as_str());
    push_line(&mut text, "操作系统: ", os.as_str());
    push_line(&mut text, "CPU: ", report.system.cpu.as_str());
    push_line(&mut text, "内存: ", quantity(report.system.memory_mb, " MB\n").as_str());
    assert(text@ =~= head + system_section_spec(report@.system));

    let ghost head = text@;
    text.append("--- GPU Info ---\n");
    let ghost gpus = gpu_views(report.gpus@);
    let mut i: usize = 0;
    assert(gpus.take(0) == Seq::<GpuInfoView>::empty());
    assert(text@ =~= head + "--- GPU Info ---\n"@ + gpu_entries_spec(gpus.take(0)));
    while i < report.gpus.len()
        invariant
            i <= report.gpus.len(),
            gpus == gpu_views(report.gpus@),
            text@ == head + "--- GPU Info ---\n"@ + gpu_entries_spec(gpus.take(i as int)),
        decreases report.gpus.len() - i,
    {
        proof {
            let next = gpus.take(i + 1);
            assert(next.drop_last() == gpus.take(i as int));
            assert(next.last() == report.gpus@[i as int]@);
        }
        let ghost before = text@;
        push_gpu_entry(&mut text, i, &report.gpus[i]);
        assert(text@ =~= head + "--- GPU Info ---\n"@ + gpu_entries_spec(gpus.take(i + 1)));
        i += 1;
    }
    assert(gpus.take(report.gpus.len() as int) == gpus);
    text.append("\n");
    assert(text@ =~= head + gpu_section_spec(report@.gpus));

    let ghost head = text@;
    text.append("--- Runtime Info ---\n");
    push_line(&mut text, "应用版本: ", report.runtime.app_version.as_str());
    push_line(&mut text, "计算设备: ", report.runtime.compute_device.as_str());
    let count = string_of(&decimal(report.runtime.fallback_count as u64));
    push_line(&mut text, "降级次数: ", count.as_str());
    push_line(&mut text, "运行时间: ", quantity(report.runtime.uptime_seconds, " 秒\n").as_str());
    assert(text@ =~= head + runtime_section_spec(report@.runtime));

    let ghost head = text@;
    let ghost errors = text_views(report.recent_errors@);
    if report.recent_errors.len() > 0 {
        text.append("--- Recent Errors ---\n");
        let mut k: usize = 0;
        assert(errors.take(0) == Seq::<Seq<char>>::empty());
        assert(text@ =~= head + "--- Recent Errors ---\n"@ + error_lines_spec(errors.take(0)));
        while k < report.recent_errors.len()
            invariant
                k <= report.recent_errors.len(),
                errors == text_views(report.recent_errors@),
                text@ == head + "--- Recent Errors ---\n"@ + error_lines_spec(errors.take(k as int)),
            decreases report.recent_errors.len() - k,
        {
            proof {
                let next = errors.take(k + 1);
                assert(next.drop_last() == errors.take(k as int));
                assert(next.last() == report.recent_errors@[k as int]@);
            }
            push_line(&mut text, "  ", report.recent_errors[k].as_str());
            assert(text@ =~= head + "--- Recent Errors ---\n"@ + error_lines_spec(errors.take(k + 1)));
            k += 1;
        }
        assert(errors.take(report.recent_errors.len() as int) == errors);
        assert(text@ =~= head + errors_section_spec(errors));
    } else {
        assert(text@ =~= head + errors_section_spec(errors));
    }
    text.append("\n==============================\n");
    text
}

/// Gathers diagnostic reports. It remembers when it was created, to
/// report the uptime.
pub struct DiagnosticCollector {
    start_time: std::time::Instant,
}

impl Default for DiagnosticCollector {
    fn default() -> Self {
        DiagnosticCollector::new()
    }
}

impl DiagnosticCollector {
    /// A collector whose uptime starts now.
    pub fn new() -> Self {
        DiagnosticCollector { start_time: instant_now() }
    }

    /// The machine that the probe's answers describe: the operating
    /// system and its version, the processor's name, and the memory in
    /// megabytes. What the probe did not learn is `Unknown`, or zero.
    pub fn collect_system_info(&self, probe: &SystemProbeOutput) -> (info: SystemInfo)
        ensures
            info@ == system_info_spec(probe@),
    {
        SystemInfo {
            os: probe.os.clone(),
            os_version: os_version(&probe.version_query),
            cpu: cpu_name(&probe.cpu_query),
            memory_mb: system_memory_mb(&probe.memory_query),
        }
    }

    /// The adapters of the probe's listing.
    pub fn collect_gpu_info(&self, probe: &ProbeOutput) -> (gpus: Vec<GpuInfo>)
        ensures
            gpu_views(gpus@) == detect_all_gpus_spec(probe@.adapters),
    {
        detect_all_gpus(probe)
    }

    /// The running application after the given uptime.
    pub fn runtime_info_after(
        &self,
        fallback_manager: Option<&FallbackManager>,
        uptime_seconds: u64,
    ) -> (info: RuntimeInfo)
        ensures
            info@ == runtime_info_spec(manager_view(fallback_manager), uptime_seconds),
    {
        let compute_device = match fallback_manager {
            Some(manager) => manager.current_device().to_string(),
            None => String::from_str("Unknown"),
        };
        let fallback_count = match fallback_manager {
            Some(manager) => manager.fallback_count(),
            None => 0,
        };
        RuntimeInfo {
            app_version: String::from_str("0.1.0"),
            compute_device,
            fallback_count,
            uptime_seconds,
        }
    }

    /// The running application now. The uptime is read from the clock;
    /// everything else is as `runtime_info_after` says.
    pub fn collect_runtime_info(&self, fallback_manager: Option<&FallbackManager>) -> (info:
        RuntimeInfo)
        ensures
            info@ == runtime_info_spec(manager_view(fallback_manager), info.uptime_seconds),
    {
        let uptime = elapsed_seconds(&self.start_time);
        self.runtime_info_after(fallback_manager, uptime)
    }

    /// The report generated at a given time after a given uptime: the
    /// machine, the adapters, the application, and the most recent
    /// fallbacks.
    pub fn generate_report_at(
        &self,
        system: &SystemProbeOutput,
        adapters: &ProbeOutput,
        fallback_manager: Option<&FallbackManager>,
        generated_at: Timestamp,
        uptime_seconds: u64,
    ) -> (report: DiagnosticReport)
        ensures
            report@ == report_spec(
                system@,
                adapters@,
                manager_view(fallback_manager),
                generated_at,
                uptime_seconds,
            ),
    {
        let system = self.collect_system_info(system);
        let gpus = self.collect_gpu_info(adapters);
        let runtime = self.runtime_info_after(fallback_manager, uptime_seconds);
        let recent_errors = match fallback_manager {
            Some(manager) => {
                let history = manager.fallback_history();
                recent_errors(&history)
            },
            None => {
                let none: Vec<String> = Vec::new();
                assert(text_views(none@) =~= Seq::empty());
                none
            },
        };
        DiagnosticReport { generated_at, system, gpus, runtime, recent_errors }
    }

    /// The report generated now. Time and uptime are read from the
    /// clocks; everything else is as `generate_report_at` says.
    pub fn generate_report(
        &self,
        system: &SystemProbeOutput,
        adapters: &ProbeOutput,
        fallback_manager: Option<&FallbackManager>,
    ) -> (report: DiagnosticReport)
        ensures
            report@ == report_spec(
                system@,
                adapters@,
                manager_view(fallback_manager),
                report.generated_at,
                report.runtime.uptime_seconds,
            ),
    {
        let uptime = elapsed_seconds(&self.start_time);
        let generated_at = current_time();
        self.generate_report_at(system, adapters, fallback_manager, generated_at, uptime)
    }

    /// The text of the report generated now.
    pub fn generate_report_text(
        &self,
        system: &SystemProbeOutput,
        adapters: &ProbeOutput,
        fallback_manager: Option<&FallbackManager>,
    ) -> (text: String)
        ensures
            exists|generated_at: Timestamp, uptime_seconds: u64|
                text@ == report_text_spec(
                    #[trigger] report_spec(
                        system@,
                        adapters@,
                        manager_view(fallback_manager),
                        generated_at,
                        uptime_seconds,
                    ),
                ),
    {
        let report = self.generate_report(system, adapters, fallback_manager);
        render_report(&report)
    }
}

} // verus!
