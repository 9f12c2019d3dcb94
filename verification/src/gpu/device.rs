//! Device records and the classification of adapters by vendor and
//! hardware generation.

use crate::text::case::{to_uppercase, uppercase_spec};
use crate::text::chars::{chars_of, clone_text};
use crate::text::search::{contains_spec, contains_text};
use vstd::prelude::*;

verus! {

/// NVIDIA hardware generations.
#[derive(Debug, Clone, Copy, PartialEq, Eq, Structural)]
pub enum GpuArchitecture {
    /// RTX 20 and GTX 16 series.
    Turing,
    /// RTX 30 series.
    Ampere,
    /// RTX 40 series.
    AdaLovelace,
    /// RTX 50 series.
    Blackwell,
    /// Any other generation.
    Unknown,
}

impl GpuArchitecture {
    /// The generation that an uppercased adapter name belongs to: the
    /// first of the series markers, newest first, that occurs in it.
    pub open spec fn of_uppercase(upper: Seq<char>) -> GpuArchitecture {
        if contains_spec(upper, "RTX 50"@) || contains_spec(upper, "RTX50"@) {
            GpuArchitecture::Blackwell
        } else if contains_spec(upper, "RTX 40"@) || contains_spec(upper, "RTX40"@) {
            GpuArchitecture::AdaLovelace
        } else if contains_spec(upper, "RTX 30"@) || contains_spec(upper, "RTX30"@) {
            GpuArchitecture::Ampere
        } else if contains_spec(upper, "RTX 20"@) || contains_spec(upper, "RTX20"@) {
            GpuArchitecture::Turing
        } else if contains_spec(upper, "GTX 16"@) || contains_spec(upper, "GTX16"@) {
            GpuArchitecture::Turing
        } else {
            GpuArchitecture::Unknown
        }
    }

    /// The generation of an adapter name, whatever the case of its letters.
    pub open spec fn from_gpu_name_spec(name: Seq<char>) -> GpuArchitecture {
        Self::of_uppercase(uppercase_spec(name))
    }

    /// The minimum CUDA version a generation needs, as text.
    pub open spec fn min_cuda_version_spec(self) -> Seq<char> {
        match self {
            GpuArchitecture::Turing => "10.0"@,
            GpuArchitecture::Ampere => "11.0"@,
            GpuArchitecture::AdaLovelace => "11.8"@,
            GpuArchitecture::Blackwell => "12.0"@,
            GpuArchitecture::Unknown => "10.0"@,
        }
    }

    /// The display name of a generation.
    pub open spec fn name_spec(self) -> Seq<char> {
        match self {
            GpuArchitecture::Turing => "Turing"@,
            GpuArchitecture::Ampere => "Ampere"@,
            GpuArchitecture::AdaLovelace => "Ada Lovelace"@,
            GpuArchitecture::Blackwell => "Blackwell"@,
            GpuArchitecture::Unknown => "Unknown"@,
        }
    }

    /// Classifies an adapter name that is already in uppercase.
    pub fn from_uppercase_name(upper: &str) -> (architecture: Self)
        ensures
            architecture == Self::of_uppercase(upper@),
    {
        let text = chars_of(upper);
        if contains_text(&text, "RTX 50") || contains_text(&text, "RTX50") {
            return GpuArchitecture::Blackwell;
        }
        if contains_text(&text, "RTX 40") || contains_text(&text, "RTX40") {
            return GpuArchitecture::AdaLovelace;
        }
        if contains_text(&text, "RTX 30") || contains_text(&text, "RTX30") {
            return GpuArchitecture::Ampere;
        }
        if contains_text(&text, "RTX 20") || contains_text(&text, "RTX20") {
            return GpuArchitecture::Turing;
        }
        if contains_text(&text, "GTX 16") || contains_text(&text, "GTX16") {
            return GpuArchitecture::Turing;
        }
        GpuArchitecture::Unknown
    }

    /// Classifies an adapter name by hardware generation.
    pub fn from_gpu_name(name: &str) -> (architecture: Self)
        ensures
            architecture == Self::from_gpu_name_spec(name@),
    {
        let upper = to_uppercase(name);
        Self::from_uppercase_name(upper.as_str())
    }

    pub fn min_cuda_version(&self) -> (version: &'static str)
        ensures
            version@ == self.min_cuda_version_spec(),
    {
        match self {
            GpuArchitecture::Turing => "10.0",
            GpuArchitecture::Ampere => "11.0",
            GpuArchitecture::AdaLovelace => "11.8",
            GpuArchitecture::Blackwell => "12.0",
            GpuArchitecture::Unknown => "10.0",
        }
    }

    pub fn name(&self) -> (name: &'static str)
        ensures
            name@ == self.name_spec(),
    {
        match self {
            GpuArchitecture::Turing => "Turing",
            GpuArchitecture::Ampere => "Ampere",
            GpuArchitecture::AdaLovelace => "Ada Lovelace",
            GpuArchitecture::Blackwell => "Blackwell",
            GpuArchitecture::Unknown => "Unknown",
        }
    }
}

/// GPU vendors.
#[derive(Debug, Clone, Copy, PartialEq, Eq, Structural)]
pub enum GpuVendor {
    Nvidia,
    Amd,
    Intel,
    Unknown,
}

impl GpuVendor {
    /// An uppercased adapter name carries one of NVIDIA's marks.
    pub open spec fn names_nvidia(upper: Seq<char>) -> bool {
        ||| contains_spec(upper, "NVIDIA"@)
        ||| contains_spec(upper, "GEFORCE"@)
        ||| contains_spec(upper, "RTX"@)
        ||| contains_spec(upper, "GTX"@)
        ||| contains_spec(upper, "QUADRO"@)
        ||| contains_spec(upper, "TESLA"@)
    }

    /// An uppercased adapter name carries one of AMD's marks.
    pub open spec fn names_amd(upper: Seq<char>) -> bool {
        contains_spec(upper, "AMD"@) || contains_spec(upper, "RADEON"@)
    }

    /// An uppercased adapter name carries one of Intel's marks.
    pub open spec fn names_intel(upper: Seq<char>) -> bool {
        ||| contains_spec(upper, "INTEL"@)
        ||| contains_spec(upper, "UHD"@)
        ||| contains_spec(upper, "IRIS"@)
        ||| contains_spec(upper, "HD GRAPHICS"@)
    }

    /// The vendor that an uppercased adapter name belongs to: NVIDIA
    /// before AMD before Intel.
    pub open spec fn of_uppercase(upper: Seq<char>) -> GpuVendor {
        if Self::names_nvidia(upper) {
            GpuVendor::Nvidia
        } else if Self::names_amd(upper) {
            GpuVendor::Amd
        } else if Self::names_intel(upper) {
            GpuVendor::Intel
        } else {
            GpuVendor::Unknown
        }
    }

    /// The vendor of an adapter name, whatever the case of its letters.
    pub open spec fn from_gpu_name_spec(name: Seq<char>) -> GpuVendor {
        Self::of_uppercase(uppercase_spec(name))
    }

    /// Whether a vendor makes discrete cards.
    pub open spec fn is_discrete_spec(&self) -> bool {
        *self == GpuVendor::Nvidia || *self == GpuVendor::Amd
    }

    /// The vendor's name as the variant is written.
    pub open spec fn label_spec(self) -> Seq<char> {
        match self {
            GpuVendor::Nvidia => "Nvidia"@,
            GpuVendor::Amd => "Amd"@,
            GpuVendor::Intel => "Intel"@,
            GpuVendor::Unknown => "Unknown"@,
        }
    }

    /// Classifies an adapter name that is already in uppercase.
    pub fn from_uppercase_name(upper: &str) -> (vendor: Self)
        ensures
            vendor == Self::of_uppercase(upper@),
    {
        let text = chars_of(upper);
        if contains_text(&text, "NVIDIA") || contains_text(&text, "GEFORCE") || contains_text(
            &text,
            "RTX",
        ) || contains_text(&text, "GTX") || contains_text(&text, "QUADRO") || contains_text(
            &text,
            "TESLA",
        ) {
            return GpuVendor::Nvidia;
        }
        if contains_text(&text, "AMD") || contains_text(&text, "RADEON") {
            return GpuVendor::Amd;
        }
        if contains_text(&text, "INTEL") || contains_text(&text, "UHD") || contains_text(
            &text,
            "IRIS",
        ) || contains_text(&text, "HD GRAPHICS") {
            return GpuVendor::Intel;
        }
        GpuVendor::Unknown
    }

    /// Classifies an adapter name by vendor.
    pub fn from_gpu_name(name: &str) -> (vendor: Self)
        ensures
            vendor == Self::from_gpu_name_spec(name@),
    {
        let upper = to_uppercase(name);
        Self::from_uppercase_name(upper.as_str())
    }

    #[verifier::when_used_as_spec(is_discrete_spec)]
    pub fn is_discrete(&self) -> (discrete: bool)
        ensures
            discrete == self.is_discrete_spec(),
    {
        match self {
            GpuVendor::Nvidia | GpuVendor::Amd => true,
            _ => false,
        }
    }

    /// The vendor's name as the variant is written.
    pub fn label(&self) -> (label: &'static str)
        ensures
            label@ == self.label_spec(),
    {
        match self {
            GpuVendor::Nvidia => "Nvidia",
            GpuVendor::Amd => "Amd",
            GpuVendor::Intel => "Intel",
            GpuVendor::Unknown => "Unknown",
        }
    }
}

/// What a device record says, with its texts as character sequences.
pub struct GpuInfoView {
    pub available: bool,
    pub name: Option<Seq<char>>,
    pub memory_mb: Option<u64>,
    pub cuda_version: Option<Seq<char>>,
    pub driver_version: Option<Seq<char>>,
    pub device_id: i32,
    pub vendor: GpuVendor,
    pub architecture: Option<GpuArchitecture>,
    pub is_discrete: bool,
}

/// One detected display adapter.
#[derive(Debug)]
pub struct GpuInfo {
    pub available: bool,
    pub name: Option<String>,
    pub memory_mb: Option<u64>,
    pub cuda_version: Option<String>,
    pub driver_version: Option<String>,
    /// Position in the enumeration that produced the record.
    pub device_id: i32,
    pub vendor: GpuVendor,
    pub architecture: Option<GpuArchitecture>,
    pub is_discrete: bool,
}

impl View for GpuInfo {
    type V = GpuInfoView;

    open spec fn view(&self) -> GpuInfoView {
        GpuInfoView {
            available: self.available,
            name: self.name.deep_view(),
            memory_mb: self.memory_mb,
            cuda_version: self.cuda_version.deep_view(),
            driver_version: self.driver_version.deep_view(),
            device_id: self.device_id,
            vendor: self.vendor,
            architecture: self.architecture,
            is_discrete: self.is_discrete,
        }
    }
}

/// The views of a sequence of device records.
pub open spec fn gpu_views(devices: Seq<GpuInfo>) -> Seq<GpuInfoView> {
    devices.map_values(|device: GpuInfo| device@)
}

impl Clone for GpuInfo {
    fn clone(&self) -> (copy: Self)
        ensures
            copy == *self,
    {
        GpuInfo {
            available: self.available,
            name: clone_text(&self.name),
            memory_mb: self.memory_mb,
            cuda_version: clone_text(&self.cuda_version),
            driver_version: clone_text(&self.driver_version),
            device_id: self.device_id,
            vendor: self.vendor,
            architecture: self.architecture,
            is_discrete: self.is_discrete,
        }
    }
}

impl Default for GpuInfo {
    fn default() -> (info: Self)
        ensures
            info@ == (GpuInfoView {
                available: false,
                name: None,
                memory_mb: None,
                cuda_version: None,
                driver_version: None,
                device_id: 0,
                vendor: GpuVendor::Unknown,
                architecture: None,
                is_discrete: false,
            }),
    {
        GpuInfo {
            available: false,
            name: None,
            memory_mb: None,
            cuda_version: None,
            driver_version: None,
            device_id: 0,
            vendor: GpuVendor::Unknown,
            architecture: None,
            is_discrete: false,
        }
    }
}

/// Execution settings for one device.
#[derive(Debug, Clone, Copy, PartialEq, Eq, Structural)]
pub struct GpuConfig {
    pub use_gpu: bool,
    pub device_id: i32,
    pub batch_size: u32,
    pub num_threads: u32,
    pub memory_limit_percent: u32,
}

impl GpuConfig {
    /// The settings used when nothing is known of the device.
    pub open spec fn default_spec() -> GpuConfig {
        GpuConfig {
            use_gpu: true,
            device_id: 0,
            batch_size: 1,
            num_threads: 4,
            memory_limit_percent: 80,
        }
    }
}

impl Default for GpuConfig {
    fn default() -> (config: Self)
        ensures
            config == GpuConfig::default_spec(),
    {
        GpuConfig {
            use_gpu: true,
            device_id: 0,
            batch_size: 1,
            num_threads: 4,
            memory_limit_percent: 80,
        }
    }
}

/// The batch size and the share of memory to use for a given amount of
/// device memory in megabytes.
pub open spec fn memory_tier(memory_mb: u64) -> (u32, u32) {
    if memory_mb >= 8000 {
        (4, 80)
    } else if memory_mb >= 6000 {
        (2, 70)
    } else if memory_mb >= 4000 {
        (1, 60)
    } else {
        (1, 50)
    }
}

/// The settings recommended for a device.
pub open spec fn recommended_config_spec(info: GpuInfoView) -> GpuConfig {
    if !info.available {
        GpuConfig { use_gpu: false, ..GpuConfig::default_spec() }
    } else {
        match info.memory_mb {
            Some(memory) => GpuConfig {
                use_gpu: true,
                device_id: info.device_id,
                batch_size: memory_tier(memory).0,
                num_threads: 4,
                memory_limit_percent: memory_tier(memory).1,
            },
            None => GpuConfig {
                use_gpu: true,
                device_id: info.device_id,
                ..GpuConfig::default_spec()
            },
        }
    }
}

/// The settings recommended for a device: none of the GPU when it is not
/// available, otherwise batch size and memory share by memory size.
pub fn get_recommended_config(gpu_info: &GpuInfo) -> (config: GpuConfig)
    ensures
        config == recommended_config_spec(gpu_info@),
{
    let mut config = GpuConfig::default();
    if !gpu_info.available {
        config.use_gpu = false;
        return config;
    }
    config.use_gpu = true;
    config.device_id = gpu_info.device_id;
    if let Some(memory) = gpu_info.memory_mb {
        if memory >= 8000 {
            config.batch_size = 4;
            config.memory_limit_percent = 80;
        } else if memory >= 6000 {
            config.batch_size = 2;
            config.memory_limit_percent = 70;
        } else if memory >= 4000 {
            config.batch_size = 1;
            config.memory_limit_percent = 60;
        } else {
            config.batch_size = 1;
            config.memory_limit_percent = 50;
        }
    }
    config
}

} // verus!
