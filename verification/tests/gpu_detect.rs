use creator_toolkit::gpu::detect::{
    detect_all_gpus, detect_cuda_version, detect_gpus, detect_nvidia_gpu, detect_nvidia_info,
    GpuDetectionResult, NvidiaInfo, ProbeOutput,
};
use creator_toolkit::gpu::device::{GpuArchitecture, GpuVendor};

fn listing(text: &str) -> ProbeOutput {
    ProbeOutput { adapters: Some(text.to_string()), ..ProbeOutput::unavailable() }
}

const TWO_ADAPTERS: &str = "Node,AdapterRAM,Name\r\nDESKTOP,1073741824,Intel(R) UHD Graphics 630\r\nDESKTOP,4293918720,NVIDIA GeForce RTX 3080\r\n";

#[test]
fn enumerates_adapters_in_listing_order() {
    let gpus = detect_all_gpus(&listing(TWO_ADAPTERS));
    assert_eq!(gpus.len(), 2);
    assert_eq!(gpus[0].name.as_deref(), Some("Intel(R) UHD Graphics 630"));
    assert_eq!(gpus[0].device_id, 0);
    assert_eq!(gpus[0].vendor, GpuVendor::Intel);
    assert_eq!(gpus[0].architecture, None);
    assert!(!gpus[0].is_discrete);
    assert_eq!(gpus[0].memory_mb, Some(1024));
    assert!(gpus[0].available);
    assert_eq!(gpus[1].name.as_deref(), Some("NVIDIA GeForce RTX 3080"));
    assert_eq!(gpus[1].device_id, 1);
    assert_eq!(gpus[1].vendor, GpuVendor::Nvidia);
    assert_eq!(gpus[1].architecture, Some(GpuArchitecture::Ampere));
    assert!(gpus[1].is_discrete);
    assert_eq!(gpus[1].memory_mb, Some(4095));
    assert_eq!(gpus[1].cuda_version, None);
    assert_eq!(gpus[1].driver_version, None);
}

#[test]
fn enumeration_without_listing_is_empty() {
    assert!(detect_all_gpus(&ProbeOutput::unavailable()).is_empty());
    assert!(detect_all_gpus(&listing("")).is_empty());
    assert!(detect_all_gpus(&listing("Node,AdapterRAM,Name\n")).is_empty());
    assert!(detect_all_gpus(&listing("\n\n\n")).is_empty());
}

#[test]
fn enumeration_skips_the_first_line_whatever_it_holds() {
    let gpus = detect_all_gpus(&listing("PC,1048576,AMD Radeon RX 580\nPC,2097152,AMD Radeon RX 6800"));
    assert_eq!(gpus.len(), 1);
    assert_eq!(gpus[0].name.as_deref(), Some("AMD Radeon RX 6800"));
    assert_eq!(gpus[0].memory_mb, Some(2));
    assert_eq!(gpus[0].device_id, 0);
}

#[test]
fn enumeration_drops_repeated_names() {
    let text = "Node,AdapterRAM,Name\nPC,1048576,AMD Radeon RX 580\nPC,2097152,NVIDIA GeForce RTX 4090\nPC,3145728,AMD Radeon RX 580\nPC,1,Intel Iris Xe\n";
    let gpus = detect_all_gpus(&listing(text));
    let names: Vec<_> = gpus.iter().map(|gpu| gpu.name.clone().unwrap()).collect();
    assert_eq!(names, vec!["AMD Radeon RX 580", "NVIDIA GeForce RTX 4090", "Intel Iris Xe"]);
    let ids: Vec<_> = gpus.iter().map(|gpu| gpu.device_id).collect();
    assert_eq!(ids, vec![0, 1, 2]);
    assert_eq!(gpus[0].memory_mb, Some(1));
    assert_eq!(gpus[2].memory_mb, Some(0));
    assert_eq!(gpus[1].architecture, Some(GpuArchitecture::AdaLovelace));
}

#[test]
fn enumeration_skips_blank_short_and_title_lines() {
    let text = "header\n   \nPC,12\nPC,1048576,   \nNode,AdapterRAM,NAME\nPC,x,  Some Adapter  ,extra\nPC,0,Zero Memory\nPC,-5,Negative\n";
    let gpus = detect_all_gpus(&listing(text));
    let names: Vec<_> = gpus.iter().map(|gpu| gpu.name.clone().unwrap()).collect();
    assert_eq!(names, vec!["Some Adapter", "Zero Memory", "Negative"]);
    assert_eq!(gpus[0].memory_mb, None);
    assert_eq!(gpus[1].memory_mb, None);
    assert_eq!(gpus[2].memory_mb, None);
    assert_eq!(gpus[0].vendor, GpuVendor::Unknown);
    assert_eq!(gpus[2].device_id, 2);
}

#[test]
fn names_are_compared_exactly_for_repeats() {
    let text = "h\nPC,1,RTX 3080\nPC,1,rtx 3080\nPC,1, RTX 3080 \n";
    let gpus = detect_all_gpus(&listing(text));
    assert_eq!(gpus.len(), 2);
    assert_eq!(gpus[1].name.as_deref(), Some("rtx 3080"));
    assert_eq!(gpus[1].architecture, Some(GpuArchitecture::Ampere));
}

#[test]
fn nvidia_info_from_queries() {
    let probe = ProbeOutput {
        adapters: None,
        driver_query: Some("551.23\n".to_string()),
        cuda_query: Some(" 12.4 \r\n".to_string()),
        summary: None,
    };
    let info = detect_nvidia_info(&probe).unwrap();
    assert_eq!(info.driver_version.as_deref(), Some("551.23"));
    assert_eq!(info.cuda_version.as_deref(), Some("12.4"));
    assert_eq!(detect_cuda_version(&probe).as_deref(), Some("12.4"));
}

#[test]
fn nvidia_info_is_none_without_any_version() {
    assert!(detect_nvidia_info(&ProbeOutput::unavailable()).is_none());
    let blank = ProbeOutput {
        adapters: None,
        driver_query: Some("  \n".to_string()),
        cuda_query: Some("N/A\n".to_string()),
        summary: Some("no version here".to_string()),
    };
    assert!(detect_nvidia_info(&blank).is_none());
    assert_eq!(detect_cuda_version(&blank), None);
    let default_info = NvidiaInfo::default();
    assert_eq!(default_info.cuda_version, None);
    assert_eq!(default_info.driver_version, None);
}

#[test]
fn cuda_version_falls_back_to_the_summary() {
    let summary = "+-----+\n| NVIDIA-SMI 551.23    Driver Version: 551.23    CUDA Version: 12.4     |\n|-----+\n";
    let probe = ProbeOutput {
        adapters: None,
        driver_query: None,
        cuda_query: Some("N/A".to_string()),
        summary: Some(summary.to_string()),
    };
    assert_eq!(detect_cuda_version(&probe).as_deref(), Some("12.4"));
    let info = detect_nvidia_info(&probe).unwrap();
    assert_eq!(info.cuda_version.as_deref(), Some("12.4"));
    assert_eq!(info.driver_version, None);
}

#[test]
fn summary_is_read_in_its_first_mentioning_line_only() {
    let with = |summary: &str| ProbeOutput {
        adapters: None,
        driver_query: None,
        cuda_query: None,
        summary: Some(summary.to_string()),
    };
    assert_eq!(detect_cuda_version(&with("CUDA Version 12\nCUDA Version: 11.8")), None);
    assert_eq!(detect_cuda_version(&with("CUDA Version:\nCUDA Version: 11.8")), None);
    assert_eq!(detect_cuda_version(&with("x\nCUDA Version:11.8|\n")).as_deref(), Some("11.8|"));
    assert_eq!(
        detect_cuda_version(&with("CUDA Version: 12.4CUDA Version: 5")).as_deref(),
        Some("12.4")
    );
    assert_eq!(detect_cuda_version(&with("CUDA Version:CUDA Version: 5")), None);
    assert_eq!(detect_cuda_version(&with("cuda version: 12.4")), None);
    assert_eq!(
        detect_cuda_version(&with("CUDA Version: \t 10.2 and more")).as_deref(),
        Some("10.2")
    );
}

#[test]
fn query_answer_wins_over_summary() {
    let probe = ProbeOutput {
        adapters: None,
        driver_query: None,
        cuda_query: Some("11.8".to_string()),
        summary: Some("CUDA Version: 12.4".to_string()),
    };
    assert_eq!(detect_cuda_version(&probe).as_deref(), Some("11.8"));
}

#[test]
fn detection_pass_annotates_nvidia_cards_and_recommends() {
    let probe = ProbeOutput {
        adapters: Some(TWO_ADAPTERS.to_string()),
        driver_query: Some("551.23".to_string()),
        cuda_query: Some("12.4".to_string()),
        summary: None,
    };
    let result = detect_gpus(&probe);
    assert_eq!(result.devices.len(), 2);
    assert_eq!(result.recommended_device, Some(1));
    assert!(result.gpu_available);
    assert_eq!(result.fallback_reason, None);
    assert_eq!(result.devices[0].cuda_version, None);
    assert_eq!(result.devices[0].driver_version, None);
    assert_eq!(result.devices[1].cuda_version.as_deref(), Some("12.4"));
    assert_eq!(result.devices[1].driver_version.as_deref(), Some("551.23"));
    let chosen = detect_nvidia_gpu(&probe);
    assert_eq!(chosen.name.as_deref(), Some("NVIDIA GeForce RTX 3080"));
    assert_eq!(chosen.device_id, 1);
    assert_eq!(chosen.cuda_version.as_deref(), Some("12.4"));
    let copy = result.clone();
    assert_eq!(copy.devices.len(), 2);
    assert_eq!(copy.recommended_device, Some(1));
}

#[test]
fn detection_pass_without_adapters() {
    let result = detect_gpus(&ProbeOutput::unavailable());
    assert!(result.devices.is_empty());
    assert_eq!(result.recommended_device, None);
    assert!(!result.gpu_available);
    assert_eq!(result.fallback_reason.as_deref(), Some("未检测到任何 GPU 设备"));
    let chosen = detect_nvidia_gpu(&ProbeOutput::unavailable());
    assert!(!chosen.available);
    assert_eq!(chosen.name, None);
    let default_result = GpuDetectionResult::default();
    assert!(default_result.devices.is_empty());
    assert!(!default_result.gpu_available);
    assert_eq!(default_result.fallback_reason.as_deref(), Some("未检测到 GPU 设备"));
}

#[test]
fn detection_pass_with_integrated_adapter_only() {
    let result = detect_gpus(&listing("h\nPC,1073741824,Intel(R) UHD Graphics 630\n"));
    assert_eq!(result.recommended_device, Some(0));
    assert!(result.gpu_available);
    assert_eq!(result.fallback_reason, None);
}
