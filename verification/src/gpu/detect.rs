//! Enumeration of display adapters from what the system probe printed.
//!
//! The probe runs outside this library. It hands over the text of four
//! queries, each missing where its command could not be run or failed:
//! the adapter listing in CSV form, the driver version, the CUDA version,
//! and the general status summary of the NVIDIA tool.

use crate::gpu::device::{gpu_views, GpuArchitecture, GpuInfo, GpuInfoView, GpuVendor};
use crate::gpu::select::{law_recommendation_exists, select_recommended_device, select_spec};
use crate::text::case::{eq_ignore_ascii_case, eq_ignore_ascii_case_spec};
use crate::text::chars::{
    chars_of, clone_text, first_token, first_token_spec, optional_view, string_of, trim, trim_spec,
};
use crate::text::number::{parse_unsigned, parse_unsigned_spec};
use crate::text::search::{
    contains, contains_spec, piece_after_first, piece_after_first_spec,
};
use crate::text::split::{
    first_where, lemma_first_where_extends, lines, lines_spec, split, split_spec, views,
};
use vstd::prelude::*;

verus! {

/// What the system probe printed.
#[derive(Debug)]
pub struct ProbeOutput {
    /// The adapter listing: a header line, then one line per adapter with
    /// node, memory in bytes and name, separated by commas.
    pub adapters: Option<String>,
    /// The answer to the driver-version query.
    pub driver_query: Option<String>,
    /// The answer to the CUDA-version query.
    pub cuda_query: Option<String>,
    /// The status summary, which names the CUDA version in one line.
    pub summary: Option<String>,
}

/// What the system probe printed, as character sequences.
pub struct ProbeOutputView {
    pub adapters: Option<Seq<char>>,
    pub driver_query: Option<Seq<char>>,
    pub cuda_query: Option<Seq<char>>,
    pub summary: Option<Seq<char>>,
}

impl View for ProbeOutput {
    type V = ProbeOutputView;

    open spec fn view(&self) -> ProbeOutputView {
        ProbeOutputView {
            adapters: self.adapters.deep_view(),
            driver_query: self.driver_query.deep_view(),
            cuda_query: self.cuda_query.deep_view(),
            summary: self.summary.deep_view(),
        }
    }
}

impl Clone for ProbeOutput {
    fn clone(&self) -> (copy: Self)
        ensures
            copy == *self,
    {
        ProbeOutput {
            adapters: clone_text(&self.adapters),
            driver_query: clone_text(&self.driver_query),
            cuda_query: clone_text(&self.cuda_query),
            summary: clone_text(&self.summary),
        }
    }
}

impl ProbeOutput {
    /// The output of a probe that could run nothing.
    pub fn unavailable() -> (probe: Self)
        ensures
            probe@ == (ProbeOutputView {
                adapters: None,
                driver_query: None,
                cuda_query: None,
                summary: None,
            }),
    {
        ProbeOutput { adapters: None, driver_query: None, cuda_query: None, summary: None }
    }
}

/// Device memory in megabytes from a byte count as text: nothing where
/// the text is no number or the number is zero.
pub open spec fn memory_mb_spec(text: Seq<char>) -> Option<u64> {
    match parse_unsigned_spec(text, u64::MAX as nat) {
        Some(bytes) => if bytes > 0 {
            Some((bytes / 1024 / 1024) as u64)
        } else {
            None
        },
        None => None,
    }
}

/// Name and memory of the adapter that a line of the listing describes.
/// A line describes none where it is blank, has fewer than three fields,
/// or has an empty name or the column title in its third field.
pub open spec fn adapter_line_spec(line: Seq<char>) -> Option<(Seq<char>, Option<u64>)> {
    let parts = split_spec(line, ',');
    if trim_spec(line).len() == 0 || parts.len() < 3 {
        None
    } else {
        let name = trim_spec(parts[2]);
        if name.len() == 0 || eq_ignore_ascii_case_spec(name, "name"@) {
            None
        } else {
            Some((name, memory_mb_spec(trim_spec(parts[1]))))
        }
    }
}

/// The record of an adapter with the given name, memory and identifier.
pub open spec fn device_record(name: Seq<char>, memory_mb: Option<u64>, device_id: i32) -> GpuInfoView {
    let vendor = GpuVendor::from_gpu_name_spec(name);
    GpuInfoView {
        available: true,
        name: Some(name),
        memory_mb,
        cuda_version: None,
        driver_version: None,
        device_id,
        vendor,
        architecture: if vendor == GpuVendor::Nvidia {
            Some(GpuArchitecture::from_gpu_name_spec(name))
        } else {
            None
        },
        is_discrete: vendor.is_discrete_spec(),
    }
}

/// One of the records carries the name.
pub open spec fn has_name_spec(devices: Seq<GpuInfoView>, name: Seq<char>) -> bool {
    exists|i: int| 0 <= i < devices.len() && (#[trigger] devices[i]).name == Some(name)
}

/// The records of the adapters that the lines describe, in the order of
/// the lines. A line whose adapter name was seen before adds nothing.
/// Identifiers count up from zero.
pub open spec fn enumerate_lines(lines: Seq<Seq<char>>) -> Seq<GpuInfoView>
    decreases lines.len(),
{
    if lines.len() == 0 {
        Seq::empty()
    } else {
        let before = enumerate_lines(lines.drop_last());
        match adapter_line_spec(lines.last()) {
            Some((name, memory_mb)) => if has_name_spec(before, name) || before.len()
                >= i32::MAX {
                before
            } else {
                before.push(device_record(name, memory_mb, before.len() as i32))
            },
            None => before,
        }
    }
}

/// The lines after the header line.
pub open spec fn data_lines(text: Seq<char>) -> Seq<Seq<char>> {
    let all = lines_spec(text);
    if all.len() > 0 {
        all.skip(1)
    } else {
        all
    }
}

/// The adapters that a listing describes; none where there is no listing.
pub open spec fn detect_all_gpus_spec(adapters: Option<Seq<char>>) -> Seq<GpuInfoView> {
    match adapters {
        Some(text) => enumerate_lines(data_lines(text)),
        None => Seq::empty(),
    }
}

/// What an enumeration guarantees of its records: identifiers are the
/// positions, every record is available and named, no name occurs
/// twice, a card is discrete exactly when its vendor makes discrete
/// cards, and exactly the NVIDIA cards have a generation.
pub open spec fn well_enumerated(devices: Seq<GpuInfoView>) -> bool {
    &&& devices.len() <= i32::MAX
    &&& forall|i: int|
        0 <= i < devices.len() ==> {
            let device = #[trigger] devices[i];
            &&& device.device_id == i
            &&& device.available
            &&& device.name is Some
            &&& device.vendor == GpuVendor::from_gpu_name_spec(device.name->0)
            &&& device.is_discrete == device.vendor.is_discrete_spec()
            &&& (device.architecture is Some <==> device.vendor == GpuVendor::Nvidia)
        }
    &&& forall|i: int, j: int|
        0 <= i < j < devices.len() ==> (#[trigger] devices[i]).name != (#[trigger] devices[j]).name
}

/// Every enumeration is well enumerated.
pub proof fn law_enumeration(lines: Seq<Seq<char>>)
    ensures
        well_enumerated(enumerate_lines(lines)),
    decreases lines.len(),
{
    if lines.len() > 0 {
        law_enumeration(lines.drop_last());
        let before = enumerate_lines(lines.drop_last());
        let after = enumerate_lines(lines);
        if after != before {
            let (name, memory_mb) = adapter_line_spec(lines.last())->0;
            assert(after == before.push(device_record(name, memory_mb, before.len() as i32)));
            assert forall|i: int, j: int| 0 <= i < j < after.len() implies (#[trigger] after[i]).name
                != (#[trigger] after[j]).name by {
                if j == before.len() {
                    assert(before[i].name != Some(name));
                } else {
                    assert(after[i] == before[i]);
                    assert(after[j] == before[j]);
                }
            }
            assert forall|i: int| 0 <= i < after.len() implies ({
                let device = #[trigger] after[i];
                &&& device.device_id == i
                &&& device.available
                &&& device.name is Some
                &&& device.vendor == GpuVendor::from_gpu_name_spec(device.name->0)
                &&& device.is_discrete == device.vendor.is_discrete_spec()
                &&& (device.architecture is Some <==> device.vendor == GpuVendor::Nvidia)
            }) by {
                if i < before.len() {
                    assert(after[i] == before[i]);
                }
            }
        }
    }
}

/// The adapters of a listing are well enumerated.
pub proof fn law_detected_devices(adapters: Option<Seq<char>>)
    ensures
        well_enumerated(detect_all_gpus_spec(adapters)),
{
    match adapters {
        Some(text) => law_enumeration(data_lines(text)),
        None => {},
    }
}

fn memory_mb(text: &Vec<char>) -> (memory: Option<u64>)
    ensures
        memory == memory_mb_spec(text@),
{
    match parse_unsigned(text, u64::MAX) {
        Some(bytes) => if bytes > 0 {
            Some(bytes / 1024 / 1024)
        } else {
            None
        },
        None => None,
    }
}

fn adapter_line(line: &Vec<char>) -> (row: Option<(Vec<char>, Option<u64>)>)
    ensures
        match row {
            Some((name, memory)) => adapter_line_spec(line@) == Some((name@, memory)),
            None => adapter_line_spec(line@) is None,
        },
{
    let trimmed = trim(line);
    if trimmed.len() == 0 {
        return None;
    }
    let parts = split(line, ',');
    if parts.len() < 3 {
        return None;
    }
    assert(views(parts@)[2] == parts@[2]@);
    assert(views(parts@)[1] == parts@[1]@);
    let name = trim(&parts[2]);
    let title = chars_of("name");
    if name.len() == 0 || eq_ignore_ascii_case(&name, &title) {
        return None;
    }
    let memory_text = trim(&parts[1]);
    let memory = memory_mb(&memory_text);
    Some((name, memory))
}

fn has_name(devices: &Vec<GpuInfo>, name: &String) -> (found: bool)
    ensures
        found == has_name_spec(gpu_views(devices@), name@),
{
    let mut k: usize = 0;
    while k < devices.len()
        invariant
            k <= devices.len(),
            forall|j: int| 0 <= j < k ==> (#[trigger] gpu_views(devices@)[j]).name != Some(name@),
        decreases devices.len() - k,
    {
        assert(gpu_views(devices@)[k as int] == devices@[k as int]@);
        match &devices[k].name {
            Some(existing) => {
                if *existing == *name {
                    return true;
                }
            },
            None => {},
        }
        k += 1;
    }
    false
}

/// Enumerates the adapters of the probe's listing: one record per named
/// line after the header, without a second record for a name already
/// seen, numbered from zero in the order of the listing, classified by
/// vendor and generation. The result is empty, never an error, where the
/// probe has no listing or the listing names nothing.
pub fn detect_all_gpus(probe: &ProbeOutput) -> (gpus: Vec<GpuInfo>)
    ensures
        gpu_views(gpus@) == detect_all_gpus_spec(probe@.adapters),
        well_enumerated(gpu_views(gpus@)),
{
    let mut gpus: Vec<GpuInfo> = Vec::new();
    proof {
        law_detected_devices(probe@.adapters);
    }
    let listing = match &probe.adapters {
        Some(listing) => listing,
        None => {
            assert(gpu_views(gpus@) =~= Seq::empty());
            return gpus;
        },
    };
    let text = chars_of(listing.as_str());
    let all_lines = lines(&text);
    let ghost all = views(all_lines@);
    if all_lines.len() == 0 {
        assert(gpu_views(gpus@) =~= Seq::empty());
        return gpus;
    }
    let ghost rows = all.skip(1);
    let mut i: usize = 1;
    assert(rows.take(0) == Seq::<Seq<char>>::empty());
    assert(gpu_views(gpus@) =~= Seq::empty());
    while i < all_lines.len()
        invariant
            1 <= i <= all_lines.len(),
            all == views(all_lines@),
            rows == all.skip(1),
            gpu_views(gpus@) == enumerate_lines(rows.take(i - 1)),
        decreases all_lines.len() - i,
    {
        proof {
            let next = rows.take(i as int);
            assert(next.drop_last() == rows.take(i - 1));
            assert(next.last() == all_lines@[i as int]@);
            law_enumeration(rows.take(i - 1));
        }
        match adapter_line(&all_lines[i]) {
            Some((name, memory_mb)) => {
                let name_text = string_of(&name);
                if !has_name(&gpus, &name_text) && gpus.len() < i32::MAX as usize {
                    let vendor = GpuVendor::from_gpu_name(name_text.as_str());
                    let architecture = if vendor == GpuVendor::Nvidia {
                        Some(GpuArchitecture::from_gpu_name(name_text.as_str()))
                    } else {
                        None
                    };
                    let device_id: i32 = gpus.len() as i32;
                    let gpu = GpuInfo {
                        available: true,
                        name: Some(name_text),
                        memory_mb,
                        cuda_version: None,
                        driver_version: None,
                        device_id,
                        vendor,
                        architecture,
                        is_discrete: vendor.is_discrete(),
                    };
                    let ghost before = gpu_views(gpus@);
                    let ghost record = gpu@;
                    gpus.push(gpu);
                    assert(gpu_views(gpus@) =~= before.push(record));
                }
            },
            None => {},
        }
        i += 1;
    }
    assert(rows.take(all_lines.len() - 1) == rows);
    gpus
}

/// CUDA and driver version of the NVIDIA installation.
#[derive(Debug)]
pub struct NvidiaInfo {
    pub cuda_version: Option<String>,
    pub driver_version: Option<String>,
}

/// CUDA and driver version, as character sequences.
pub struct NvidiaInfoView {
    pub cuda_version: Option<Seq<char>>,
    pub driver_version: Option<Seq<char>>,
}

impl View for NvidiaInfo {
    type V = NvidiaInfoView;

    open spec fn view(&self) -> NvidiaInfoView {
        NvidiaInfoView {
            cuda_version: self.cuda_version.deep_view(),
            driver_version: self.driver_version.deep_view(),
        }
    }
}

impl Clone for NvidiaInfo {
    fn clone(&self) -> (copy: Self)
        ensures
            copy == *self,
    {
        NvidiaInfo {
            cuda_version: clone_text(&self.cuda_version),
            driver_version: clone_text(&self.driver_version),
        }
    }
}

impl Default for NvidiaInfo {
    fn default() -> (info: Self)
        ensures
            info@ == (NvidiaInfoView { cuda_version: None, driver_version: None }),
    {
        NvidiaInfo { cuda_version: None, driver_version: None }
    }
}

/// The trimmed text of an answer, where there is an answer and it is not
/// blank.
pub open spec fn answer_spec(answer: Option<Seq<char>>) -> Option<Seq<char>> {
    match answer {
        Some(text) => if trim_spec(text).len() > 0 {
            Some(trim_spec(text))
        } else {
            None
        },
        None => None,
    }
}

/// The CUDA version that the version query answered, where it answered
/// one: the answer `N/A` is none.
pub open spec fn queried_cuda_spec(answer: Option<Seq<char>>) -> Option<Seq<char>> {
    match answer_spec(answer) {
        Some(version) => if version == "N/A"@ {
            None
        } else {
            Some(version)
        },
        None => None,
    }
}

/// The first of the lines in which `needle` occurs.
pub open spec fn first_line_with(lines: Seq<Seq<char>>, needle: Seq<char>) -> Option<Seq<char>> {
    first_where(lines, |line: Seq<char>| contains_spec(line, needle))
}

/// The CUDA version that a line of the summary names: the first word
/// after the label, up to where the label occurs again.
pub open spec fn labelled_version_spec(line: Seq<char>) -> Option<Seq<char>> {
    match piece_after_first_spec(line, "CUDA Version:"@) {
        Some(piece) => if first_token_spec(piece).len() > 0 {
            Some(first_token_spec(piece))
        } else {
            None
        },
        None => None,
    }
}

/// The CUDA version that the status summary names. Only the first line
/// that mentions the version is read.
pub open spec fn summary_cuda_spec(summary: Option<Seq<char>>) -> Option<Seq<char>> {
    match summary {
        Some(text) => match first_line_with(lines_spec(text), "CUDA Version"@) {
            Some(line) => labelled_version_spec(line),
            None => None,
        },
        None => None,
    }
}

/// The CUDA version of the installation: what the version query
/// answered, else what the summary names.
pub open spec fn detect_cuda_version_spec(probe: ProbeOutputView) -> Option<Seq<char>> {
    match queried_cuda_spec(probe.cuda_query) {
        Some(version) => Some(version),
        None => summary_cuda_spec(probe.summary),
    }
}

/// CUDA and driver version of the installation; nothing where neither
/// is known.
pub open spec fn detect_nvidia_info_spec(probe: ProbeOutputView) -> Option<NvidiaInfoView> {
    let driver_version = answer_spec(probe.driver_query);
    let cuda_version = detect_cuda_version_spec(probe);
    if cuda_version is Some || driver_version is Some {
        Some(NvidiaInfoView { cuda_version, driver_version })
    } else {
        None
    }
}

fn answer(text: &Option<String>) -> (trimmed: Option<Vec<char>>)
    ensures
        optional_view(trimmed) == answer_spec(text.deep_view()),
{
    match text {
        Some(text) => {
            let all = chars_of(text.as_str());
            let trimmed = trim(&all);
            if trimmed.len() > 0 {
                Some(trimmed)
            } else {
                None
            }
        },
        None => None,
    }
}

fn queried_cuda(text: &Option<String>) -> (version: Option<String>)
    ensures
        version.deep_view() == queried_cuda_spec(text.deep_view()),
{
    match answer(text) {
        Some(version) => {
            let version = string_of(&version);
            let unknown = String::from_str("N/A");
            if version == unknown {
                None
            } else {
                Some(version)
            }
        },
        None => None,
    }
}

fn labelled_version(line: &Vec<char>) -> (version: Option<String>)
    ensures
        version.deep_view() == labelled_version_spec(line@),
{
    let label = chars_of("CUDA Version:");
    match piece_after_first(line, &label) {
        Some(piece) => {
            let token = first_token(&piece);
            if token.len() > 0 {
                Some(string_of(&token))
            } else {
                None
            }
        },
        None => None,
    }
}

fn summary_cuda(summary: &Option<String>) -> (version: Option<String>)
    ensures
        version.deep_view() == summary_cuda_spec(summary.deep_view()),
{
    let text = match summary {
        Some(text) => chars_of(text.as_str()),
        None => {
            return None;
        },
    };
    let all_lines = lines(&text);
    let mention = chars_of("CUDA Version");
    let ghost all = views(all_lines@);
    let ghost wanted = |line: Seq<char>| contains_spec(line, mention@);
    let mut i: usize = 0;
    assert(all.take(0) == Seq::<Seq<char>>::empty());
    while i < all_lines.len()
        invariant
            i <= all_lines.len(),
            all == views(all_lines@),
            all == lines_spec(text@),
            summary.deep_view() == Some(text@),
            mention@ == "CUDA Version"@,
            wanted == |line: Seq<char>| contains_spec(line, mention@),
            first_where(all.take(i as int), wanted) is None,
        decreases all_lines.len() - i,
    {
        proof {
            let next = all.take(i + 1);
            assert(next.drop_last() == all.take(i as int));
            assert(next.last() == all_lines@[i as int]@);
        }
        if contains(&all_lines[i], &mention) {
            proof {
                lemma_first_where_extends(all, wanted, i as int);
            }
            return labelled_version(&all_lines[i]);
        }
        i += 1;
    }
    assert(all.take(all_lines.len() as int) == all);
    None
}

/// The CUDA version of the installation: the answer to the version
/// query unless it is blank or `N/A`, else the version that the summary
/// names.
pub fn detect_cuda_version(probe: &ProbeOutput) -> (version: Option<String>)
    ensures
        version.deep_view() == detect_cuda_version_spec(probe@),
{
    match queried_cuda(&probe.cuda_query) {
        Some(version) => Some(version),
        None => summary_cuda(&probe.summary),
    }
}

/// CUDA and driver version of the NVIDIA installation, or nothing where
/// the probe learned neither.
pub fn detect_nvidia_info(probe: &ProbeOutput) -> (info: Option<NvidiaInfo>)
    ensures
        match info {
            Some(info) => detect_nvidia_info_spec(probe@) == Some(info@),
            None => detect_nvidia_info_spec(probe@) is None,
        },
{
    let driver_version = match answer(&probe.driver_query) {
        Some(driver) => Some(string_of(&driver)),
        None => None,
    };
    let cuda_version = detect_cuda_version(probe);
    if cuda_version.is_some() || driver_version.is_some() {
        Some(NvidiaInfo { cuda_version, driver_version })
    } else {
        None
    }
}

/// The outcome of a detection pass.
#[derive(Debug)]
pub struct GpuDetectionResult {
    /// Every adapter that was found.
    pub devices: Vec<GpuInfo>,
    /// Index of the device to prefer.
    pub recommended_device: Option<usize>,
    pub gpu_available: bool,
    /// Why no GPU can be used, where none can.
    pub fallback_reason: Option<String>,
}

/// The outcome of a detection pass, with its texts as character
/// sequences.
pub struct GpuDetectionResultView {
    pub devices: Seq<GpuInfoView>,
    pub recommended_device: Option<int>,
    pub gpu_available: bool,
    pub fallback_reason: Option<Seq<char>>,
}

impl View for GpuDetectionResult {
    type V = GpuDetectionResultView;

    open spec fn view(&self) -> GpuDetectionResultView {
        GpuDetectionResultView {
            devices: gpu_views(self.devices@),
            recommended_device: match self.recommended_device {
                Some(index) => Some(index as int),
                None => None,
            },
            gpu_available: self.gpu_available,
            fallback_reason: self.fallback_reason.deep_view(),
        }
    }
}

/// A copy of a list of device records.
pub fn clone_devices(devices: &Vec<GpuInfo>) -> (copy: Vec<GpuInfo>)
    ensures
        gpu_views(copy@) == gpu_views(devices@),
{
    let mut copy: Vec<GpuInfo> = Vec::new();
    let mut i: usize = 0;
    while i < devices.len()
        invariant
            i <= devices.len(),
            copy.len() == i,
            forall|k: int| 0 <= k < i ==> (#[trigger] copy@[k])@ == devices@[k]@,
        decreases devices.len() - i,
    {
        copy.push(devices[i].clone());
        i += 1;
    }
    assert(gpu_views(copy@) =~= gpu_views(devices@));
    copy
}

impl Clone for GpuDetectionResult {
    fn clone(&self) -> (copy: Self)
        ensures
            copy@ == self@,
    {
        GpuDetectionResult {
            devices: clone_devices(&self.devices),
            recommended_device: self.recommended_device,
            gpu_available: self.gpu_available,
            fallback_reason: clone_text(&self.fallback_reason),
        }
    }
}

impl Default for GpuDetectionResult {
    fn default() -> (result: Self)
        ensures
            result@ == (GpuDetectionResultView {
                devices: Seq::empty(),
                recommended_device: None,
                gpu_available: false,
                fallback_reason: Some("未检测到 GPU 设备"@),
            }),
    {
        let result = GpuDetectionResult {
            devices: Vec::new(),
            recommended_device: None,
            gpu_available: false,
            fallback_reason: Some(String::from_str("未检测到 GPU 设备")),
        };
        assert(result@.devices =~= Seq::empty());
        result
    }
}

/// A record with the versions of the NVIDIA installation, where it is an
/// NVIDIA card and the versions are known; any other record unchanged.
pub open spec fn with_versions(device: GpuInfoView, info: Option<NvidiaInfoView>) -> GpuInfoView {
    match info {
        Some(info) => if device.vendor == GpuVendor::Nvidia {
            GpuInfoView {
                cuda_version: info.cuda_version,
                driver_version: info.driver_version,
                ..device
            }
        } else {
            device
        },
        None => device,
    }
}

/// The outcome of a detection pass on what the probe printed.
pub open spec fn detect_gpus_spec(probe: ProbeOutputView) -> GpuDetectionResultView {
    let found = detect_all_gpus_spec(probe.adapters);
    if found.len() == 0 {
        GpuDetectionResultView {
            devices: Seq::empty(),
            recommended_device: None,
            gpu_available: false,
            fallback_reason: Some("未检测到任何 GPU 设备"@),
        }
    } else {
        let info = detect_nvidia_info_spec(probe);
        let devices = found.map_values(|device: GpuInfoView| with_versions(device, info));
        GpuDetectionResultView {
            devices,
            recommended_device: select_spec(devices),
            gpu_available: true,
            fallback_reason: None,
        }
    }
}

/// A full detection pass: the adapters of the listing, the NVIDIA cards
/// among them with the installation's CUDA and driver version, and the
/// device to prefer. Without any adapter the outcome says that no GPU is
/// available and why; it is never an error.
pub fn detect_gpus(probe: &ProbeOutput) -> (result: GpuDetectionResult)
    ensures
        result@ == detect_gpus_spec(probe@),
{
    let found = detect_all_gpus(probe);
    if found.len() == 0 {
        let result = GpuDetectionResult {
            devices: Vec::new(),
            recommended_device: None,
            gpu_available: false,
            fallback_reason: Some(String::from_str("未检测到任何 GPU 设备")),
        };
        assert(result@.devices =~= Seq::empty());
        return result;
    }
    let info = detect_nvidia_info(probe);
    let ghost info_view = detect_nvidia_info_spec(probe@);
    let mut devices: Vec<GpuInfo> = Vec::new();
    let mut i: usize = 0;
    while i < found.len()
        invariant
            i <= found.len(),
            devices.len() == i,
            match info {
                Some(info) => info_view == Some(info@),
                None => info_view is None,
            },
            forall|k: int|
                0 <= k < i ==> (#[trigger] devices@[k])@ == with_versions(found@[k]@, info_view),
        decreases found.len() - i,
    {
        let mut gpu = found[i].clone();
        if gpu.vendor == GpuVendor::Nvidia {
            if let Some(nvidia) = &info {
                gpu.cuda_version = clone_text(&nvidia.cuda_version);
                gpu.driver_version = clone_text(&nvidia.driver_version);
            }
        }
        devices.push(gpu);
        i += 1;
    }
    let ghost expected = gpu_views(found@).map_values(
        |device: GpuInfoView| with_versions(device, info_view),
    );
    assert(gpu_views(devices@) =~= expected);
    let recommended_idx = select_recommended_device(devices.as_slice());
    proof {
        law_recommendation_exists(gpu_views(devices@));
    }
    let fallback_reason = if recommended_idx.is_none() {
        Some(String::from_str("未找到可用的独立显卡"))
    } else {
        None
    };
    GpuDetectionResult {
        gpu_available: recommended_idx.is_some(),
        recommended_device: recommended_idx,
        fallback_reason,
        devices,
    }
}

/// The record of the recommended device of a detection pass, or the
/// default record where nothing was found.
pub open spec fn detect_nvidia_gpu_spec(probe: ProbeOutputView) -> GpuInfoView {
    let result = detect_gpus_spec(probe);
    match result.recommended_device {
        Some(index) => result.devices[index],
        None => GpuInfoView {
            available: false,
            name: None,
            memory_mb: None,
            cuda_version: None,
            driver_version: None,
            device_id: 0,
            vendor: GpuVendor::Unknown,
            architecture: None,
            is_discrete: false,
        },
    }
}

/// Runs a detection pass and returns the record of the device it
/// recommends, or the default record, which is not available, where it
/// found nothing.
pub fn detect_nvidia_gpu(probe: &ProbeOutput) -> (gpu: GpuInfo)
    ensures
        gpu@ == detect_nvidia_gpu_spec(probe@),
{
    let result = detect_gpus(probe);
    proof {
        law_recommendation_exists(result@.devices);
    }
    if let Some(idx) = result.recommended_device {
        if idx < result.devices.len() {
            return result.devices[idx].clone();
        }
    }
    GpuInfo::default()
}

/// A detection pass recommends a device exactly when it found one, and
/// then reports the GPU as available and gives no reason for a fallback.
pub proof fn law_detection_outcome(probe: ProbeOutputView)
    ensures
        detect_gpus_spec(probe).gpu_available <==> detect_gpus_spec(probe).devices.len() > 0,
        detect_gpus_spec(probe).gpu_available <==> detect_gpus_spec(probe).recommended_device is Some,
        detect_gpus_spec(probe).gpu_available <==> detect_gpus_spec(probe).fallback_reason is None,
        detect_gpus_spec(probe).recommended_device matches Some(index) ==> 0 <= index
            < detect_gpus_spec(probe).devices.len(),
{
    let result = detect_gpus_spec(probe);
    law_recommendation_exists(result.devices);
}

} // verus!
