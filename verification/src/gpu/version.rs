//! Runtime-library versions: parsing, comparison, and the check of a
//! device's CUDA version against what its generation needs.

use crate::gpu::device::{GpuArchitecture, GpuInfo, GpuInfoView, GpuVendor};
use crate::text::compose::{
    line_spec, optional_line_spec, or_unknown, or_unknown_spec, push_line, push_optional_line,
    quantity, quantity_spec,
};
use crate::text::chars::{chars_of, clone_text, trim, trim_spec};
use crate::text::number::{parse_unsigned, parse_unsigned_spec};
use crate::text::split::{split, split_spec, views};
use vstd::prelude::*;

verus! {

/// One component of a version: the number the text writes, or zero where
/// it writes none that fits 32 bits.
pub open spec fn component_spec(text: Seq<char>) -> u32 {
    match parse_unsigned_spec(text, u32::MAX as nat) {
        Some(n) => n as u32,
        None => 0,
    }
}

/// The component at `index` of a split version, zero where it is missing.
pub open spec fn component_at(parts: Seq<Seq<char>>, index: int) -> u32 {
    if 0 <= index < parts.len() {
        component_spec(parts[index])
    } else {
        0
    }
}

/// Major, minor and patch number of a version text. The text is trimmed
/// and split at dots; the major number must parse, a minor or patch
/// number that is missing or does not parse counts as zero, and further
/// components are ignored.
pub open spec fn parse_version_spec(version: Seq<char>) -> Option<(u32, u32, u32)> {
    let parts = split_spec(trim_spec(version), '.');
    match parse_unsigned_spec(parts[0], u32::MAX as nat) {
        Some(major) => Some((major as u32, component_at(parts, 1), component_at(parts, 2))),
        None => None,
    }
}

/// Order of two parsed versions: by major, then minor, then patch number.
pub open spec fn compare_triples(a: (u32, u32, u32), b: (u32, u32, u32)) -> int {
    if a.0 != b.0 {
        if a.0 > b.0 {
            1
        } else {
            -1
        }
    } else if a.1 != b.1 {
        if a.1 > b.1 {
            1
        } else {
            -1
        }
    } else if a.2 != b.2 {
        if a.2 > b.2 {
            1
        } else {
            -1
        }
    } else {
        0
    }
}

/// Order of two versions that may have failed to parse: one that did not
/// parse is below every one that did, and equal to another that did not.
pub open spec fn compare_parsed(a: Option<(u32, u32, u32)>, b: Option<(u32, u32, u32)>) -> int {
    match (a, b) {
        (Some(x), Some(y)) => compare_triples(x, y),
        (Some(_), None) => 1,
        (None, Some(_)) => -1,
        (None, None) => 0,
    }
}

/// Order of two version texts: -1, 0 or 1.
pub open spec fn compare_versions_spec(v1: Seq<char>, v2: Seq<char>) -> int {
    compare_parsed(parse_version_spec(v1), parse_version_spec(v2))
}

fn component(parts: &Vec<Vec<char>>, index: usize) -> (value: u32)
    ensures
        value == component_at(views(parts@), index as int),
{
    if index < parts.len() {
        match parse_unsigned(&parts[index], u32::MAX as u64) {
            Some(n) => n as u32,
            None => 0,
        }
    } else {
        0
    }
}

/// Parses a version text into major, minor and patch number.
pub fn parse_version(version: &str) -> (parsed: Option<(u32, u32, u32)>)
    ensures
        parsed == parse_version_spec(version@),
{
    let text = chars_of(version);
    let trimmed = trim(&text);
    let parts = split(&trimmed, '.');
    let major: u32 = match parse_unsigned(&parts[0], u32::MAX as u64) {
        Some(n) => n as u32,
        None => {
            return None;
        },
    };
    let minor: u32 = component(&parts, 1);
    let patch: u32 = component(&parts, 2);
    Some((major, minor, patch))
}

/// Orders two parsed versions.
pub fn compare_parsed_versions(
    a: Option<(u32, u32, u32)>,
    b: Option<(u32, u32, u32)>,
) -> (order: i32)
    ensures
        order == compare_parsed(a, b),
{
    match (a, b) {
        (Some((maj1, min1, pat1)), Some((maj2, min2, pat2))) => {
            if maj1 != maj2 {
                return if maj1 > maj2 {
                    1
                } else {
                    -1
                };
            }
            if min1 != min2 {
                return if min1 > min2 {
                    1
                } else {
                    -1
                };
            }
            if pat1 != pat2 {
                return if pat1 > pat2 {
                    1
                } else {
                    -1
                };
            }
            0
        },
        (Some(_), None) => 1,
        (None, Some(_)) => -1,
        (None, None) => 0,
    }
}

/// Orders two version texts: -1 where the first is lower, 0 where they
/// are equal, 1 where the first is higher.
pub fn compare_versions(v1: &str, v2: &str) -> (order: i32)
    ensures
        order == compare_versions_spec(v1@, v2@),
        -1 <= order <= 1,
{
    let parsed1 = parse_version(v1);
    let parsed2 = parse_version(v2);
    compare_parsed_versions(parsed1, parsed2)
}

/// The order of parsed versions is reflexive and antisymmetric, and tells
/// equal triples from unequal ones.
pub proof fn law_version_order(a: Option<(u32, u32, u32)>, b: Option<(u32, u32, u32)>)
    ensures
        compare_parsed(a, a) == 0,
        compare_parsed(a, b) == -compare_parsed(b, a),
        compare_parsed(a, b) == 0 <==> a == b,
{
}

/// The order of parsed versions is transitive.
pub proof fn law_version_order_transitive(
    a: Option<(u32, u32, u32)>,
    b: Option<(u32, u32, u32)>,
    c: Option<(u32, u32, u32)>,
)
    requires
        compare_parsed(a, b) <= 0,
        compare_parsed(b, c) <= 0,
    ensures
        compare_parsed(a, c) <= 0,
{
}

/// Outcome of a compatibility check, with its texts as character
/// sequences.
pub struct CudaCompatibilityView {
    pub compatible: bool,
    pub current_version: Option<Seq<char>>,
    pub required_version: Seq<char>,
    pub upgrade_suggestion: Option<Seq<char>>,
}

/// Outcome of a compatibility check.
#[derive(Debug)]
pub struct CudaCompatibility {
    pub compatible: bool,
    /// The version that was detected, if any.
    pub current_version: Option<String>,
    /// The lowest version the device's generation accepts.
    pub required_version: String,
    /// What to do about it; present exactly when not compatible.
    pub upgrade_suggestion: Option<String>,
}

impl View for CudaCompatibility {
    type V = CudaCompatibilityView;

    open spec fn view(&self) -> CudaCompatibilityView {
        CudaCompatibilityView {
            compatible: self.compatible,
            current_version: self.current_version.deep_view(),
            required_version: self.required_version@,
            upgrade_suggestion: self.upgrade_suggestion.deep_view(),
        }
    }
}

impl Clone for CudaCompatibility {
    fn clone(&self) -> (copy: Self)
        ensures
            copy == *self,
    {
        CudaCompatibility {
            compatible: self.compatible,
            current_version: clone_text(&self.current_version),
            required_version: self.required_version.clone(),
            upgrade_suggestion: clone_text(&self.upgrade_suggestion),
        }
    }
}

/// The line of a suggestion that reports the detected version.
pub open spec fn current_version_line(current: Option<Seq<char>>) -> Seq<char> {
    match current {
        Some(version) => "当前 CUDA 版本: "@ + version,
        None => "未检测到 CUDA 版本"@,
    }
}

/// The upgrade suggestion for a generation and a detected version.
pub open spec fn upgrade_suggestion_spec(
    architecture: GpuArchitecture,
    current: Option<Seq<char>>,
) -> Seq<char> {
    current_version_line(current) + "\n\n您的 "@ + architecture.name_spec() + " 架构显卡需要 CUDA "@
        + architecture.min_cuda_version_spec()
        + " 或更高版本。\n\n建议操作:\n1. 访问 NVIDIA 驱动下载页面: https://www.nvidia.com/drivers\n2. 下载并安装最新版本的 NVIDIA 驱动程序\n3. 重启计算机后重新运行本应用\n\n注意: 更新驱动程序会自动包含对应的 CUDA 运行时支持。"@
}

/// The generation a device is checked as: its own, or the unknown one.
pub open spec fn checked_architecture(info: GpuInfoView) -> GpuArchitecture {
    match info.architecture {
        Some(architecture) => architecture,
        None => GpuArchitecture::Unknown,
    }
}

/// Whether a detected version meets what a generation needs. A version
/// that was not detected never does.
pub open spec fn meets_requirement(
    architecture: GpuArchitecture,
    current: Option<Seq<char>>,
) -> bool {
    match current {
        Some(version) => compare_versions_spec(version, architecture.min_cuda_version_spec())
            >= 0,
        None => false,
    }
}

/// The outcome of checking a device.
pub open spec fn compatibility_spec(info: GpuInfoView) -> CudaCompatibilityView {
    let architecture = checked_architecture(info);
    let compatible = meets_requirement(architecture, info.cuda_version);
    CudaCompatibilityView {
        compatible,
        current_version: info.cuda_version,
        required_version: architecture.min_cuda_version_spec(),
        upgrade_suggestion: if compatible {
            None
        } else {
            Some(upgrade_suggestion_spec(architecture, info.cuda_version))
        },
    }
}

/// Writes the upgrade suggestion for a generation: the detected version
/// or its absence, the generation's name, the version it needs, and the
/// steps to take.
pub fn generate_cuda_upgrade_suggestion(
    architecture: &GpuArchitecture,
    current_version: Option<&str>,
) -> (suggestion: String)
    ensures
        suggestion@ == upgrade_suggestion_spec(
            *architecture,
            match current_version {
                Some(version) => Some(version@),
                None => None,
            },
        ),
{
    let required = architecture.min_cuda_version();
    let arch_name = architecture.name();
    let mut text = String::new();
    match current_version {
        Some(version) => {
            text.append("当前 CUDA 版本: ");
            text.append(version);
        },
        None => {
            text.append("未检测到 CUDA 版本");
        },
    }
    text.append("\n\n您的 ");
    text.append(arch_name);
    text.append(" 架构显卡需要 CUDA ");
    text.append(required);
    text.append(
        " 或更高版本。\n\n建议操作:\n1. 访问 NVIDIA 驱动下载页面: https://www.nvidia.com/drivers\n2. 下载并安装最新版本的 NVIDIA 驱动程序\n3. 重启计算机后重新运行本应用\n\n注意: 更新驱动程序会自动包含对应的 CUDA 运行时支持。",
    );
    text
}

/// Checks a device's CUDA version against the minimum of its generation.
/// The outcome is advisory: it carries a suggestion exactly when the
/// version falls short or was not detected.
pub fn check_cuda_compatibility(gpu: &GpuInfo) -> (outcome: CudaCompatibility)
    ensures
        outcome@ == compatibility_spec(gpu@),
{
    let architecture = match gpu.architecture {
        Some(architecture) => architecture,
        None => GpuArchitecture::Unknown,
    };
    let required = architecture.min_cuda_version();
    let current_version = clone_text(&gpu.cuda_version);
    let compatible = match &current_version {
        Some(current) => compare_versions(current.as_str(), required) >= 0,
        None => false,
    };
    let upgrade_suggestion = if !compatible {
        let current: Option<&str> = match &current_version {
            Some(current) => Some(current.as_str()),
            None => None,
        };
        Some(generate_cuda_upgrade_suggestion(&architecture, current))
    } else {
        None
    };
    CudaCompatibility {
        compatible,
        current_version,
        required_version: String::from_str(required),
        upgrade_suggestion,
    }
}

/// A device whose version was not detected is never compatible, whatever
/// its generation.
pub proof fn law_missing_version_incompatible(info: GpuInfoView)
    requires
        info.cuda_version is None,
    ensures
        !compatibility_spec(info).compatible,
        compatibility_spec(info).upgrade_suggestion is Some,
{
}

/// A suggestion is given exactly when the device is not compatible.
pub proof fn law_suggestion_iff_incompatible(info: GpuInfoView)
    ensures
        compatibility_spec(info).upgrade_suggestion is Some <==> !compatibility_spec(
            info,
        ).compatible,
{
}

/// The text of a generation that may be missing.
pub open spec fn architecture_name(architecture: Option<GpuArchitecture>) -> Option<Seq<char>> {
    match architecture {
        Some(architecture) => Some(architecture.name_spec()),
        None => None,
    }
}

/// An amount of memory in megabytes, where it is known.
pub open spec fn memory_text(memory_mb: Option<u64>) -> Option<Seq<char>> {
    match memory_mb {
        Some(memory) => Some(quantity_spec(memory as nat, " MB"@)),
        None => None,
    }
}

/// The part of a report that every device has: name, vendor, and the
/// generation, memory, driver and CUDA version that are known.
pub open spec fn device_lines_spec(info: GpuInfoView) -> Seq<char> {
    line_spec("GPU: "@, or_unknown_spec(info.name)) + line_spec("厂商: "@, info.vendor.label_spec())
        + optional_line_spec("架构: "@, architecture_name(info.architecture)) + optional_line_spec(
        "显存: "@,
        memory_text(info.memory_mb),
    ) + optional_line_spec("驱动版本: "@, info.driver_version) + optional_line_spec(
        "CUDA 版本: "@,
        info.cuda_version,
    )
}

/// The part of a report on an NVIDIA card that says whether its CUDA
/// version suffices, which version is needed, and what to do otherwise.
pub open spec fn verdict_lines_spec(outcome: CudaCompatibilityView) -> Seq<char> {
    line_spec(
        "\n兼容性: "@,
        if outcome.compatible {
            "✓ 兼容"@
        } else {
            "✗ 不兼容"@
        },
    ) + line_spec("所需 CUDA 版本: "@, outcome.required_version) + optional_line_spec(
        "\n升级建议:\n"@,
        outcome.upgrade_suggestion,
    )
}

/// The compatibility report of a device.
pub open spec fn compatibility_report_spec(info: GpuInfoView) -> Seq<char> {
    if info.vendor == GpuVendor::Nvidia {
        device_lines_spec(info) + verdict_lines_spec(compatibility_spec(info))
    } else {
        device_lines_spec(info)
    }
}

/// The generation's name as an owned text, where there is a generation.
fn architecture_text(architecture: &Option<GpuArchitecture>) -> (text: Option<String>)
    ensures
        text.deep_view() == architecture_name(*architecture),
{
    match architecture {
        Some(architecture) => Some(String::from_str(architecture.name())),
        None => None,
    }
}

fn memory_quantity(memory_mb: Option<u64>) -> (text: Option<String>)
    ensures
        text.deep_view() == memory_text(memory_mb),
{
    match memory_mb {
        Some(memory) => Some(quantity(memory, " MB")),
        None => None,
    }
}

/// Writes the compatibility report of a device: what is known of it,
/// line by line, and for an NVIDIA card the outcome of the compatibility
/// check.
pub fn get_gpu_compatibility_report(gpu: &GpuInfo) -> (report: String)
    ensures
        report@ == compatibility_report_spec(gpu@),
{
    let mut report = String::new();
    push_line(&mut report, "GPU: ", or_unknown(&gpu.name));
    push_line(&mut report, "厂商: ", gpu.vendor.label());
    push_optional_line(&mut report, "架构: ", &architecture_text(&gpu.architecture));
    push_optional_line(&mut report, "显存: ", &memory_quantity(gpu.memory_mb));
    push_optional_line(&mut report, "驱动版本: ", &gpu.driver_version);
    push_optional_line(&mut report, "CUDA 版本: ", &gpu.cuda_version);
    assert(report@ =~= device_lines_spec(gpu@));
    if gpu.vendor == GpuVendor::Nvidia {
        let compat = check_cuda_compatibility(gpu);
        push_line(
            &mut report,
            "\n兼容性: ",
            if compat.compatible {
                "✓ 兼容"
            } else {
                "✗ 不兼容"
            },
        );
        push_line(&mut report, "所需 CUDA 版本: ", compat.required_version.as_str());
        push_optional_line(&mut report, "\n升级建议:\n", &compat.upgrade_suggestion);
        assert(report@ =~= device_lines_spec(gpu@) + verdict_lines_spec(compat@));
    }
    report
}

} // verus!
