use creator_toolkit::gpu::detect::ProbeOutput;
use creator_toolkit::gpu::diagnostics::{render_report, DiagnosticCollector, SystemProbeOutput};
use creator_toolkit::gpu::fallback::FallbackManager;
use creator_toolkit::time::{time_text, Timestamp};

fn bare_system() -> SystemProbeOutput {
    SystemProbeOutput {
        os: "windows".to_string(),
        version_query: None,
        cpu_query: None,
        memory_query: None,
    }
}

#[test]
fn test_diagnostic_collector_system_info() {
    let collector = DiagnosticCollector::new();
    let system_info = collector.collect_system_info(&bare_system());

    assert!(!system_info.os.is_empty());
}

#[test]
fn test_diagnostic_report_generation() {
    let collector = DiagnosticCollector::new();
    let report = collector.generate_report(&bare_system(), &ProbeOutput::unavailable(), None);

    assert!(report.generated_at.seconds > 0);

    assert!(!report.runtime.app_version.is_empty());
}

#[test]
fn system_info_from_probe_answers() {
    let collector = DiagnosticCollector::new();
    let probe = SystemProbeOutput {
        os: "windows".to_string(),
        version_query: Some("\r\nMicrosoft Windows [Version 10.0.19045.3803]\r\n".to_string()),
        cpu_query: Some("\r\n\r\nName=Intel(R) Core(TM) i7-9700K CPU @ 3.60GHz  \r\n\r\n".to_string()),
        memory_query: Some("\r\n\r\nTotalPhysicalMemory=34284167168\r\n".to_string()),
    };
    let info = collector.collect_system_info(&probe);
    assert_eq!(info.os, "windows");
    assert_eq!(info.os_version, "Microsoft Windows [Version 10.0.19045.3803]");
    assert_eq!(info.cpu, "Intel(R) Core(TM) i7-9700K CPU @ 3.60GHz");
    assert_eq!(info.memory_mb, 32695);
}

#[test]
fn system_info_without_answers() {
    let collector = DiagnosticCollector::default();
    let info = collector.collect_system_info(&bare_system());
    assert_eq!(info.os_version, "Unknown");
    assert_eq!(info.cpu, "Unknown");
    assert_eq!(info.memory_mb, 0);
    let odd = SystemProbeOutput {
        os: "linux".to_string(),
        version_query: Some("   ".to_string()),
        cpu_query: Some(" Name=indented\nName=Name=Twice \nName=Later".to_string()),
        memory_query: Some("TotalPhysicalMemory=lots\nTotalPhysicalMemory=1048576".to_string()),
    };
    let info = collector.collect_system_info(&odd);
    assert_eq!(info.os_version, "");
    assert_eq!(info.cpu, "Twice");
    assert_eq!(info.memory_mb, 0);
    let none = SystemProbeOutput {
        os: "linux".to_string(),
        version_query: None,
        cpu_query: Some("name=lowercase".to_string()),
        memory_query: Some("TotalPhysicalMemory=2097152".to_string()),
    };
    let info = collector.collect_system_info(&none);
    assert_eq!(info.cpu, "Unknown");
    assert_eq!(info.memory_mb, 2);
}

#[test]
fn runtime_info_reflects_the_manager() {
    let collector = DiagnosticCollector::new();
    let mut manager = FallbackManager::with_gpu(1, "RTX 3080".to_string());
    let info = collector.runtime_info_after(Some(&manager), 77);
    assert_eq!(info.app_version, "0.1.0");
    assert_eq!(info.compute_device, "GPU:1 (RTX 3080)");
    assert_eq!(info.fallback_count, 0);
    assert_eq!(info.uptime_seconds, 77);
    manager.trigger_fallback("x", None);
    let info = collector.collect_runtime_info(Some(&manager));
    assert_eq!(info.compute_device, "CPU");
    assert_eq!(info.fallback_count, 1);
    assert!(info.uptime_seconds < 5);
    let info = collector.runtime_info_after(None, 0);
    assert_eq!(info.compute_device, "Unknown");
    assert_eq!(info.fallback_count, 0);
}

#[test]
fn report_lists_the_most_recent_fallbacks() {
    let collector = DiagnosticCollector::new();
    let mut manager = FallbackManager::new();
    for i in 0..7 {
        manager.switch_to_gpu(0, "RTX 3080".to_string());
        manager.trigger_fallback_at(
            Timestamp { seconds: 1431648000 + i, nanos: 0 },
            &format!("reason {}", i),
            None,
        );
    }
    let when = Timestamp { seconds: 1431648000, nanos: 0 };
    let report = collector.generate_report_at(
        &bare_system(),
        &ProbeOutput::unavailable(),
        Some(&manager),
        when,
        9,
    );
    assert_eq!(
        report.recent_errors,
        vec![
            "2015-05-15 00:00:02: reason 2",
            "2015-05-15 00:00:03: reason 3",
            "2015-05-15 00:00:04: reason 4",
            "2015-05-15 00:00:05: reason 5",
            "2015-05-15 00:00:06: reason 6",
        ]
    );
    assert_eq!(report.generated_at, when);
    assert_eq!(report.runtime.fallback_count, 7);
    assert!(report.gpus.is_empty());
    let none = collector.generate_report_at(&bare_system(), &ProbeOutput::unavailable(), None, when, 9);
    assert!(none.recent_errors.is_empty());
}

#[test]
fn time_text_renders_utc_seconds() {
    assert_eq!(time_text(&Timestamp { seconds: 1431648000, nanos: 0 }), "2015-05-15 00:00:00");
    assert_eq!(time_text(&Timestamp { seconds: 0, nanos: 999_999_999 }), "1970-01-01 00:00:00");
    assert_eq!(time_text(&Timestamp { seconds: -1, nanos: 0 }), "1969-12-31 23:59:59");
    assert_eq!(time_text(&Timestamp { seconds: i64::MAX, nanos: 0 }), "unknown time");
    assert_eq!(time_text(&Timestamp { seconds: 0, nanos: u32::MAX }), "unknown time");
}

#[test]
fn report_text_has_all_sections() {
    let collector = DiagnosticCollector::new();
    let mut manager = FallbackManager::with_gpu(0, "NVIDIA GeForce RTX 3080".to_string());
    manager.trigger_fallback_at(Timestamp { seconds: 1431648000, nanos: 5 }, "GPU execution failed", None);
    let system = SystemProbeOutput {
        os: "windows".to_string(),
        version_query: Some("10.0".to_string()),
        cpu_query: Some("Name=Some CPU".to_string()),
        memory_query: Some("TotalPhysicalMemory=17179869184".to_string()),
    };
    let adapters = ProbeOutput {
        adapters: Some(
            "Node,AdapterRAM,Name\nPC,4293918720,NVIDIA GeForce RTX 3080\nPC,0,Basic Display\n"
                .to_string(),
        ),
        driver_query: None,
        cuda_query: None,
        summary: None,
    };
    let report = collector.generate_report_at(
        &system,
        &adapters,
        Some(&manager),
        Timestamp { seconds: 1431648060, nanos: 0 },
        3661,
    );
    let text = render_report(&report);
    let expected = "========== 诊断报告 ==========\n\n生成时间: 2015-05-15 00:01:00 UTC\n\n--- System Info ---\n操作系统: windows 10.0\nCPU: Some CPU\n内存: 16384 MB\n\n--- GPU Info ---\nGPU 0: NVIDIA GeForce RTX 3080\n  厂商: Nvidia\n  架构: Ampere\n  显存: 4095 MB\nGPU 1: Basic Display\n  厂商: Unknown\n\n--- Runtime Info ---\n应用版本: 0.1.0\n计算设备: CPU\n降级次数: 1\n运行时间: 3661 秒\n\n--- Recent Errors ---\n  2015-05-15 00:00:00: GPU execution failed\n\n==============================\n";
    assert_eq!(text, expected);
}

#[test]
fn report_text_without_fallbacks_has_no_error_section() {
    let collector = DiagnosticCollector::new();
    let text = collector.generate_report_text(&bare_system(), &ProbeOutput::unavailable(), None);
    assert!(text.starts_with("========== 诊断报告 ==========\n\n生成时间: "));
    assert!(text.contains("--- System Info ---\n操作系统: windows Unknown\nCPU: Unknown\n内存: 0 MB\n\n"));
    assert!(text.contains("--- GPU Info ---\n\n--- Runtime Info ---\n"));
    assert!(text.contains("计算设备: Unknown\n降级次数: 0\n"));
    assert!(!text.contains("Recent Errors"));
    assert!(text.ends_with(" 秒\n\n\n==============================\n"));
    assert!(collector.collect_gpu_info(&ProbeOutput::unavailable()).is_empty());
}
