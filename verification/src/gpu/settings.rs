//! What the settings screen shows of the GPU and accepts as its
//! configuration.

use crate::gpu::detect::{detect_gpus, detect_gpus_spec, ProbeOutput, ProbeOutputView};
use crate::gpu::device::{GpuInfoView};
use crate::gpu::select::law_recommendation_exists;
use crate::gpu::version::{
    architecture_name, compatibility_report_spec, get_gpu_compatibility_report,
};
use crate::text::chars::{clone_text, push_chars};
use crate::text::number::{decimal, decimal_spec};
use vstd::prelude::*;

verus! {

/// A device record as the settings screen shows it, with vendor and
/// generation as text.
#[derive(Debug)]
pub struct GpuInfo {
    pub available: bool,
    pub name: Option<String>,
    pub memory_mb: Option<u64>,
    pub cuda_version: Option<String>,
    pub driver_version: Option<String>,
    pub device_id: i32,
    pub vendor: Option<String>,
    pub architecture: Option<String>,
    pub is_discrete: bool,
}

/// A device record of the settings screen, with its texts as character
/// sequences.
pub struct GpuInfoText {
    pub available: bool,
    pub name: Option<Seq<char>>,
    pub memory_mb: Option<u64>,
    pub cuda_version: Option<Seq<char>>,
    pub driver_version: Option<Seq<char>>,
    pub device_id: i32,
    pub vendor: Option<Seq<char>>,
    pub architecture: Option<Seq<char>>,
    pub is_discrete: bool,
}

impl View for GpuInfo {
    type V = GpuInfoText;

    open spec fn view(&self) -> GpuInfoText {
        GpuInfoText {
            available: self.available,
            name: self.name.deep_view(),
            memory_mb: self.memory_mb,
            cuda_version: self.cuda_version.deep_view(),
            driver_version: self.driver_version.deep_view(),
            device_id: self.device_id,
            vendor: self.vendor.deep_view(),
            architecture: self.architecture.deep_view(),
            is_discrete: self.is_discrete,
        }
    }
}

impl Clone for GpuInfo {
    fn clone(&self) -> (copy: Self)
        ensures
            copy == *self,
    {
        GpuInfo {
            available: self.available,
            name: clone_text(&self.name),
            memory_mb: self.memory_mb,
            cuda_version: clone_text(&self.cuda_version),
            driver_version: clone_text(&self.driver_version),
            device_id: self.device_id,
            vendor: clone_text(&self.vendor),
            architecture: clone_text(&self.architecture),
            is_discrete: self.is_discrete,
        }
    }
}

/// A detected device as the settings screen shows it.
pub open spec fn shown_spec(info: GpuInfoView) -> GpuInfoText {
    GpuInfoText {
        available: info.available,
        name: info.name,
        memory_mb: info.memory_mb,
        cuda_version: info.cuda_version,
        driver_version: info.driver_version,
        device_id: info.device_id,
        vendor: Some(info.vendor.label_spec()),
        architecture: architecture_name(info.architecture),
        is_discrete: info.is_discrete,
    }
}

impl GpuInfo {
    /// The record of a detected device, with the vendor's and the
    /// generation's name written out.
    pub fn from_detected(info: &crate::gpu::device::GpuInfo) -> (shown: Self)
        ensures
            shown@ == shown_spec(info@),
    {
        GpuInfo {
            available: info.available,
            name: clone_text(&info.name),
            memory_mb: info.memory_mb,
            cuda_version: clone_text(&info.cuda_version),
            driver_version: clone_text(&info.driver_version),
            device_id: info.device_id,
            vendor: Some(String::from_str(info.vendor.label())),
            architecture: match info.architecture {
                Some(architecture) => Some(String::from_str(architecture.name())),
                None => None,
            },
            is_discrete: info.is_discrete,
        }
    }
}

/// The GPU settings a user can choose.
#[derive(Debug, Clone, Copy, PartialEq, Eq, Structural)]
pub struct GpuConfig {
    pub enabled: bool,
    pub threads: u32,
    pub memory_limit_mb: u64,
    pub batch_size: u32,
}

impl Default for GpuConfig {
    fn default() -> (config: Self)
        ensures
            config == (GpuConfig { enabled: true, threads: 4, memory_limit_mb: 2048, batch_size: 1 }),
    {
        GpuConfig { enabled: true, threads: 4, memory_limit_mb: 2048, batch_size: 1 }
    }
}

/// The settings recommended for a device, and why.
#[derive(Debug)]
pub struct RecommendedConfig {
    pub threads: u32,
    pub memory_limit_mb: u64,
    pub batch_size: u32,
    pub reason: String,
}

/// Recommended settings, with the reason as a character sequence.
pub struct RecommendedConfigView {
    pub threads: u32,
    pub memory_limit_mb: u64,
    pub batch_size: u32,
    pub reason: Seq<char>,
}

impl View for RecommendedConfig {
    type V = RecommendedConfigView;

    open spec fn view(&self) -> RecommendedConfigView {
        RecommendedConfigView {
            threads: self.threads,
            memory_limit_mb: self.memory_limit_mb,
            batch_size: self.batch_size,
            reason: self.reason@,
        }
    }
}

impl Clone for RecommendedConfig {
    fn clone(&self) -> (copy: Self)
        ensures
            copy == *self,
    {
        RecommendedConfig {
            threads: self.threads,
            memory_limit_mb: self.memory_limit_mb,
            batch_size: self.batch_size,
            reason: self.reason.clone(),
        }
    }
}

/// A share of an amount of memory, in percent, rounded down.
pub open spec fn share_of(memory_mb: u64, percent: int) -> u64 {
    (memory_mb * percent / 100) as u64
}

/// The settings recommended for a device of the settings screen: by the
/// size of its memory, and CPU settings where it is not available.
pub open spec fn recommended_spec(info: GpuInfoText) -> RecommendedConfigView {
    let memory = match info.memory_mb {
        Some(memory) => memory,
        None => 0,
    };
    if !info.available {
        RecommendedConfigView {
            threads: 4,
            memory_limit_mb: 0,
            batch_size: 1,
            reason: "GPU 不可用，使用 CPU 模式"@,
        }
    } else if memory >= 8192 {
        RecommendedConfigView {
            threads: 8,
            memory_limit_mb: share_of(memory, 70),
            batch_size: 4,
            reason: "高性能配置（8GB+ 显存）"@,
        }
    } else if memory >= 6144 {
        RecommendedConfigView {
            threads: 6,
            memory_limit_mb: share_of(memory, 70),
            batch_size: 2,
            reason: "推荐配置（6GB 显存）"@,
        }
    } else if memory >= 4096 {
        RecommendedConfigView {
            threads: 4,
            memory_limit_mb: share_of(memory, 60),
            batch_size: 1,
            reason: "标准配置（4GB 显存）"@,
        }
    } else if memory >= 2048 {
        RecommendedConfigView {
            threads: 2,
            memory_limit_mb: share_of(memory, 50),
            batch_size: 1,
            reason: "低显存配置（2GB 显存）"@,
        }
    } else {
        RecommendedConfigView {
            threads: 4,
            memory_limit_mb: 0,
            batch_size: 1,
            reason: "显存不足，建议使用 CPU 模式"@,
        }
    }
}

fn share(memory_mb: u64, percent: u64) -> (part: u64)
    requires
        percent <= 100,
    ensures
        part == share_of(memory_mb, percent as int),
{
    assert(0 <= memory_mb * percent <= memory_mb * 100) by (nonlinear_arith)
        requires
            0 <= percent <= 100,
            0 <= memory_mb,
    ;
    let wide: u128 = memory_mb as u128 * percent as u128 / 100;
    wide as u64
}

/// Recommends settings for a device of the settings screen.
pub fn get_recommended_gpu_config(gpu_info: &GpuInfo) -> (config: RecommendedConfig)
    ensures
        config@ == recommended_spec(gpu_info@),
{
    if !gpu_info.available {
        return RecommendedConfig {
            threads: 4,
            memory_limit_mb: 0,
            batch_size: 1,
            reason: String::from_str("GPU 不可用，使用 CPU 模式"),
        };
    }
    let memory_mb: u64 = match gpu_info.memory_mb {
        Some(memory) => memory,
        None => 0,
    };
    if memory_mb >= 8192 {
        RecommendedConfig {
            threads: 8,
            memory_limit_mb: share(memory_mb, 70),
            batch_size: 4,
            reason: String::from_str("高性能配置（8GB+ 显存）"),
        }
    } else if memory_mb >= 6144 {
        RecommendedConfig {
            threads: 6,
            memory_limit_mb: share(memory_mb, 70),
            batch_size: 2,
            reason: String::from_str("推荐配置（6GB 显存）"),
        }
    } else if memory_mb >= 4096 {
        RecommendedConfig {
            threads: 4,
            memory_limit_mb: share(memory_mb, 60),
            batch_size: 1,
            reason: String::from_str("标准配置（4GB 显存）"),
        }
    } else if memory_mb >= 2048 {
        RecommendedConfig {
            threads: 2,
            memory_limit_mb: share(memory_mb, 50),
            batch_size: 1,
            reason: String::from_str("低显存配置（2GB 显存）"),
        }
    } else {
        RecommendedConfig {
            threads: 4,
            memory_limit_mb: 0,
            batch_size: 1,
            reason: String::from_str("显存不足，建议使用 CPU 模式"),
        }
    }
}

/// The memory a device of the settings screen has, zero where unknown.
pub open spec fn known_memory(info: GpuInfoText) -> u64 {
    match info.memory_mb {
        Some(memory) => memory,
        None => 0,
    }
}

/// The message for a memory limit above the device's memory.
pub open spec fn memory_limit_message(limit_mb: u64, memory_mb: u64) -> Seq<char> {
    "显存限制 ("@ + decimal_spec(limit_mb as nat) + " MB) 超过可用显存 ("@ + decimal_spec(
        memory_mb as nat,
    ) + " MB)"@
}

/// Whether chosen settings suit a device, and the message where they do
/// not. Disabled settings suit every device. Enabled settings need an
/// available device, a memory limit within its memory, 1 to 32 threads
/// and a batch size of 1 to 16; the first of these that fails gives the
/// message.
pub open spec fn validation_spec(config: GpuConfig, info: GpuInfoText) -> Result<bool, Seq<char>> {
    if !config.enabled {
        Ok(true)
    } else if !info.available {
        Err("GPU 不可用，无法启用 GPU 加速"@)
    } else if config.memory_limit_mb > known_memory(info) {
        Err(memory_limit_message(config.memory_limit_mb, known_memory(info)))
    } else if config.threads == 0 || config.threads > 32 {
        Err("线程数必须在 1-32 之间"@)
    } else if config.batch_size == 0 || config.batch_size > 16 {
        Err("批处理大小必须在 1-16 之间"@)
    } else {
        Ok(true)
    }
}

/// Validates chosen settings against a device of the settings screen.
pub fn validate_gpu_config(config: &GpuConfig, gpu_info: &GpuInfo) -> (outcome: Result<
    bool,
    String,
>)
    ensures
        match outcome {
            Ok(valid) => validation_spec(*config, gpu_info@) == Ok::<bool, Seq<char>>(valid),
            Err(message) => validation_spec(*config, gpu_info@) == Err::<bool, Seq<char>>(
                message@,
            ),
        },
{
    if !config.enabled {
        return Ok(true);
    }
    if !gpu_info.available {
        return Err(String::from_str("GPU 不可用，无法启用 GPU 加速"));
    }
    let memory_mb: u64 = match gpu_info.memory_mb {
        Some(memory) => memory,
        None => 0,
    };
    if config.memory_limit_mb > memory_mb {
        let mut message = String::from_str("显存限制 (");
        push_chars(&mut message, &decimal(config.memory_limit_mb));
        message.append(" MB) 超过可用显存 (");
        push_chars(&mut message, &decimal(memory_mb));
        message.append(" MB)");
        return Err(message);
    }
    if config.threads == 0 || config.threads > 32 {
        return Err(String::from_str("线程数必须在 1-32 之间"));
    }
    if config.batch_size == 0 || config.batch_size > 16 {
        return Err(String::from_str("批处理大小必须在 1-16 之间"));
    }
    Ok(true)
}

/// The outcome of a detection pass as the settings screen shows it.
#[derive(Debug)]
pub struct GpuDetectionInfo {
    pub devices: Vec<GpuInfo>,
    pub recommended_device: Option<usize>,
    pub gpu_available: bool,
    pub fallback_reason: Option<String>,
    /// The compatibility report of the recommended device.
    pub compatibility_report: Option<String>,
}

/// The outcome of a detection pass for the settings screen, with its
/// texts as character sequences.
pub struct GpuDetectionInfoView {
    pub devices: Seq<GpuInfoText>,
    pub recommended_device: Option<int>,
    pub gpu_available: bool,
    pub fallback_reason: Option<Seq<char>>,
    pub compatibility_report: Option<Seq<char>>,
}

impl View for GpuDetectionInfo {
    type V = GpuDetectionInfoView;

    open spec fn view(&self) -> GpuDetectionInfoView {
        GpuDetectionInfoView {
            devices: self.devices@.map_values(|device: GpuInfo| device@),
            recommended_device: match self.recommended_device {
                Some(index) => Some(index as int),
                None => None,
            },
            gpu_available: self.gpu_available,
            fallback_reason: self.fallback_reason.deep_view(),
            compatibility_report: self.compatibility_report.deep_view(),
        }
    }
}

/// What the settings screen shows of a detection pass on what the probe
/// printed.
pub open spec fn detection_info_spec(probe: ProbeOutputView) -> GpuDetectionInfoView {
    let result = detect_gpus_spec(probe);
    GpuDetectionInfoView {
        devices: result.devices.map_values(|device: GpuInfoView| shown_spec(device)),
        recommended_device: result.recommended_device,
        gpu_available: result.gpu_available,
        fallback_reason: result.fallback_reason,
        compatibility_report: match result.recommended_device {
            Some(index) => Some(compatibility_report_spec(result.devices[index])),
            None => None,
        },
    }
}

/// Runs a detection pass and prepares its outcome for the settings
/// screen, with the compatibility report of the recommended device.
pub fn detect_gpu_info(probe: &ProbeOutput) -> (info: GpuDetectionInfo)
    ensures
        info@ == detection_info_spec(probe@),
{
    let result = detect_gpus(probe);
    proof {
        law_recommendation_exists(result@.devices);
    }
    let mut devices: Vec<GpuInfo> = Vec::new();
    let mut i: usize = 0;
    while i < result.devices.len()
        invariant
            i <= result.devices.len(),
            devices.len() == i,
            forall|k: int| 0 <= k < i ==> (#[trigger] devices@[k])@ == shown_spec(result.devices@[k]@),
        decreases result.devices.len() - i,
    {
        devices.push(GpuInfo::from_detected(&result.devices[i]));
        i += 1;
    }
    let compatibility_report = match result.recommended_device {
        Some(index) => {
            if index < result.devices.len() {
                Some(get_gpu_compatibility_report(&result.devices[index]))
            } else {
                None
            }
        },
        None => None,
    };
    let info = GpuDetectionInfo {
        devices,
        recommended_device: result.recommended_device,
        gpu_available: result.gpu_available,
        fallback_reason: clone_text(&result.fallback_reason),
        compatibility_report,
    };
    assert(info@.devices =~= detection_info_spec(probe@).devices);
    info
}

} // verus!
