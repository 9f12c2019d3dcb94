use creator_toolkit::gpu::device::{
    get_recommended_config, GpuArchitecture, GpuConfig, GpuInfo, GpuVendor,
};
use creator_toolkit::gpu::select::select_recommended_device;
use creator_toolkit::gpu::version::{
    check_cuda_compatibility, compare_parsed_versions, compare_versions,
    generate_cuda_upgrade_suggestion, get_gpu_compatibility_report, parse_version,
};

#[test]
fn test_architecture_from_name() {
    assert_eq!(GpuArchitecture::from_gpu_name("NVIDIA GeForce RTX 2080"), GpuArchitecture::Turing);
    assert_eq!(GpuArchitecture::from_gpu_name("NVIDIA GeForce RTX 3090"), GpuArchitecture::Ampere);
    assert_eq!(
        GpuArchitecture::from_gpu_name("NVIDIA GeForce RTX 4090"),
        GpuArchitecture::AdaLovelace
    );
    assert_eq!(
        GpuArchitecture::from_gpu_name("NVIDIA GeForce RTX 5090"),
        GpuArchitecture::Blackwell
    );
    assert_eq!(GpuArchitecture::from_gpu_name("NVIDIA GeForce GTX 1660"), GpuArchitecture::Turing);
    assert_eq!(GpuArchitecture::from_gpu_name("Intel UHD Graphics 630"), GpuArchitecture::Unknown);
}

#[test]
fn test_vendor_from_name() {
    assert_eq!(GpuVendor::from_gpu_name("NVIDIA GeForce RTX 3080"), GpuVendor::Nvidia);
    assert_eq!(GpuVendor::from_gpu_name("AMD Radeon RX 6800"), GpuVendor::Amd);
    assert_eq!(GpuVendor::from_gpu_name("Intel UHD Graphics 630"), GpuVendor::Intel);
    assert_eq!(GpuVendor::from_gpu_name("Unknown GPU"), GpuVendor::Unknown);
}

#[test]
fn test_min_cuda_version() {
    assert_eq!(GpuArchitecture::Turing.min_cuda_version(), "10.0");
    assert_eq!(GpuArchitecture::Ampere.min_cuda_version(), "11.0");
    assert_eq!(GpuArchitecture::AdaLovelace.min_cuda_version(), "11.8");
    assert_eq!(GpuArchitecture::Blackwell.min_cuda_version(), "12.0");
}

#[test]
fn test_vendor_is_discrete() {
    assert!(GpuVendor::Nvidia.is_discrete());
    assert!(GpuVendor::Amd.is_discrete());
    assert!(!GpuVendor::Intel.is_discrete());
    assert!(!GpuVendor::Unknown.is_discrete());
}

#[test]
fn test_select_recommended_device_prefers_nvidia() {
    let devices = vec![
        GpuInfo {
            available: true,
            name: Some("Intel UHD Graphics 630".to_string()),
            vendor: GpuVendor::Intel,
            is_discrete: false,
            device_id: 0,
            ..Default::default()
        },
        GpuInfo {
            available: true,
            name: Some("NVIDIA GeForce RTX 3080".to_string()),
            vendor: GpuVendor::Nvidia,
            is_discrete: true,
            device_id: 1,
            ..Default::default()
        },
    ];

    let recommended = select_recommended_device(&devices);
    assert_eq!(recommended, Some(1));
}

#[test]
fn test_select_recommended_device_prefers_discrete() {
    let devices = vec![
        GpuInfo {
            available: true,
            name: Some("Intel UHD Graphics 630".to_string()),
            vendor: GpuVendor::Intel,
            is_discrete: false,
            device_id: 0,
            ..Default::default()
        },
        GpuInfo {
            available: true,
            name: Some("AMD Radeon RX 6800".to_string()),
            vendor: GpuVendor::Amd,
            is_discrete: true,
            device_id: 1,
            ..Default::default()
        },
    ];

    let recommended = select_recommended_device(&devices);
    assert_eq!(recommended, Some(1));
}

#[test]
fn test_parse_version() {
    assert_eq!(parse_version("12.4"), Some((12, 4, 0)));
    assert_eq!(parse_version("11.8.0"), Some((11, 8, 0)));
    assert_eq!(parse_version("10"), Some((10, 0, 0)));
    assert_eq!(parse_version("12.4.1"), Some((12, 4, 1)));
    assert_eq!(parse_version(""), None);
}

#[test]
fn test_compare_versions() {
    assert_eq!(compare_versions("12.4", "12.4"), 0);
    assert_eq!(compare_versions("11.0.0", "11.0"), 0);

    assert_eq!(compare_versions("12.4", "11.8"), 1);
    assert_eq!(compare_versions("12.0", "11.8"), 1);
    assert_eq!(compare_versions("11.8.1", "11.8.0"), 1);

    assert_eq!(compare_versions("11.0", "11.8"), -1);
    assert_eq!(compare_versions("10.0", "11.0"), -1);
    assert_eq!(compare_versions("11.7", "11.8"), -1);
}

#[test]
fn test_cuda_compatibility_check() {
    let gpu = GpuInfo {
        available: true,
        name: Some("NVIDIA GeForce RTX 3080".to_string()),
        vendor: GpuVendor::Nvidia,
        architecture: Some(GpuArchitecture::Ampere),
        cuda_version: Some("12.4".to_string()),
        is_discrete: true,
        ..Default::default()
    };

    let compat = check_cuda_compatibility(&gpu);
    assert!(compat.compatible);
    assert_eq!(compat.required_version, "11.0");
    assert!(compat.upgrade_suggestion.is_none());
}

#[test]
fn test_cuda_compatibility_check_incompatible() {
    let gpu = GpuInfo {
        available: true,
        name: Some("NVIDIA GeForce RTX 4090".to_string()),
        vendor: GpuVendor::Nvidia,
        architecture: Some(GpuArchitecture::AdaLovelace),
        cuda_version: Some("11.0".to_string()),
        is_discrete: true,
        ..Default::default()
    };

    let compat = check_cuda_compatibility(&gpu);
    assert!(!compat.compatible);
    assert_eq!(compat.required_version, "11.8");
    assert!(compat.upgrade_suggestion.is_some());
}

#[test]
fn test_cuda_compatibility_no_cuda() {
    let gpu = GpuInfo {
        available: true,
        name: Some("NVIDIA GeForce RTX 3080".to_string()),
        vendor: GpuVendor::Nvidia,
        architecture: Some(GpuArchitecture::Ampere),
        cuda_version: None,
        is_discrete: true,
        ..Default::default()
    };

    let compat = check_cuda_compatibility(&gpu);
    assert!(!compat.compatible);
    assert!(compat.upgrade_suggestion.is_some());
}

#[test]
fn test_basic_priority() {
    let devices = vec![
        GpuInfo {
            available: true,
            name: Some("Intel UHD Graphics 630".to_string()),
            vendor: GpuVendor::Intel,
            is_discrete: false,
            device_id: 0,
            ..Default::default()
        },
        GpuInfo {
            available: true,
            name: Some("NVIDIA GeForce RTX 3080".to_string()),
            vendor: GpuVendor::Nvidia,
            is_discrete: true,
            device_id: 1,
            architecture: Some(GpuArchitecture::Ampere),
            ..Default::default()
        },
    ];

    let recommended = select_recommended_device(&devices);
    assert_eq!(recommended, Some(1));
}

#[test]
fn test_nvidia_over_amd() {
    let devices = vec![
        GpuInfo {
            available: true,
            name: Some("AMD Radeon RX 6800".to_string()),
            vendor: GpuVendor::Amd,
            is_discrete: true,
            device_id: 0,
            ..Default::default()
        },
        GpuInfo {
            available: true,
            name: Some("NVIDIA GeForce RTX 3080".to_string()),
            vendor: GpuVendor::Nvidia,
            is_discrete: true,
            device_id: 1,
            architecture: Some(GpuArchitecture::Ampere),
            ..Default::default()
        },
    ];

    let recommended = select_recommended_device(&devices);
    assert_eq!(recommended, Some(1));
}

fn device(vendor: GpuVendor, is_discrete: bool, device_id: i32) -> GpuInfo {
    GpuInfo { available: true, vendor, is_discrete, device_id, ..Default::default() }
}

#[test]
fn select_from_empty_list_is_none() {
    assert_eq!(select_recommended_device(&[]), None);
}

#[test]
fn select_without_discrete_device_is_first() {
    let devices = vec![
        device(GpuVendor::Intel, false, 0),
        device(GpuVendor::Unknown, false, 1),
        device(GpuVendor::Nvidia, false, 2),
    ];
    assert_eq!(select_recommended_device(&devices), Some(0));
}

#[test]
fn select_prefers_discrete_of_any_vendor() {
    let devices = vec![
        device(GpuVendor::Intel, false, 0),
        device(GpuVendor::Unknown, true, 1),
        device(GpuVendor::Intel, true, 2),
    ];
    let chosen = select_recommended_device(&devices).unwrap();
    assert_eq!(chosen, 1);
    assert!(devices[chosen].is_discrete);
}

#[test]
fn select_takes_lowest_index_within_tier() {
    let devices = vec![
        device(GpuVendor::Amd, true, 0),
        device(GpuVendor::Nvidia, true, 1),
        device(GpuVendor::Nvidia, true, 2),
        device(GpuVendor::Amd, true, 3),
    ];
    assert_eq!(select_recommended_device(&devices), Some(1));
    let amd_only = vec![
        device(GpuVendor::Intel, false, 0),
        device(GpuVendor::Amd, true, 1),
        device(GpuVendor::Amd, true, 2),
    ];
    assert_eq!(select_recommended_device(&amd_only), Some(1));
}

#[test]
fn select_ignores_nvidia_that_is_not_discrete() {
    let devices = vec![device(GpuVendor::Nvidia, false, 0), device(GpuVendor::Amd, true, 1)];
    assert_eq!(select_recommended_device(&devices), Some(1));
}

#[test]
fn vendor_classification_ignores_case() {
    assert_eq!(GpuVendor::from_gpu_name("nvidia geforce rtx 3080"), GpuVendor::Nvidia);
    assert_eq!(GpuVendor::from_gpu_name("amd radeon"), GpuVendor::Amd);
    assert_eq!(GpuVendor::from_gpu_name("Iris Xe"), GpuVendor::Intel);
    assert_eq!(GpuVendor::from_gpu_name("hd graphics 4000"), GpuVendor::Intel);
    assert_eq!(GpuVendor::from_gpu_name(""), GpuVendor::Unknown);
    assert_eq!(GpuVendor::from_uppercase_name("nvidia"), GpuVendor::Unknown);
    assert_eq!(GpuVendor::from_uppercase_name("TESLA T4"), GpuVendor::Nvidia);
    assert_eq!(GpuVendor::from_uppercase_name("QUADRO"), GpuVendor::Nvidia);
}

#[test]
fn vendor_precedence_is_nvidia_amd_intel() {
    assert_eq!(GpuVendor::from_gpu_name("AMD Radeon with GTX sticker"), GpuVendor::Nvidia);
    assert_eq!(GpuVendor::from_gpu_name("Intel UHD + AMD Radeon"), GpuVendor::Amd);
}

#[test]
fn architecture_classification_ignores_case_and_spacing() {
    assert_eq!(GpuArchitecture::from_gpu_name("rtx 4070 ti"), GpuArchitecture::AdaLovelace);
    assert_eq!(GpuArchitecture::from_gpu_name("RTX3060"), GpuArchitecture::Ampere);
    assert_eq!(GpuArchitecture::from_gpu_name("gtx1650"), GpuArchitecture::Turing);
    assert_eq!(GpuArchitecture::from_gpu_name("GTX 1080"), GpuArchitecture::Unknown);
    assert_eq!(GpuArchitecture::from_gpu_name("RTX 50 and RTX 20"), GpuArchitecture::Blackwell);
    assert_eq!(GpuArchitecture::from_uppercase_name("rtx 4090"), GpuArchitecture::Unknown);
}

#[test]
fn architecture_names() {
    assert_eq!(GpuArchitecture::Turing.name(), "Turing");
    assert_eq!(GpuArchitecture::Ampere.name(), "Ampere");
    assert_eq!(GpuArchitecture::AdaLovelace.name(), "Ada Lovelace");
    assert_eq!(GpuArchitecture::Blackwell.name(), "Blackwell");
    assert_eq!(GpuArchitecture::Unknown.name(), "Unknown");
    assert_eq!(GpuArchitecture::Unknown.min_cuda_version(), "10.0");
    assert_eq!(GpuVendor::Nvidia.label(), "Nvidia");
    assert_eq!(GpuVendor::Unknown.label(), "Unknown");
}

#[test]
fn default_device_record() {
    let info = GpuInfo::default();
    assert!(!info.available);
    assert_eq!(info.name, None);
    assert_eq!(info.memory_mb, None);
    assert_eq!(info.device_id, 0);
    assert_eq!(info.vendor, GpuVendor::Unknown);
    assert_eq!(info.architecture, None);
    assert!(!info.is_discrete);
}

#[test]
fn recommended_config_by_memory() {
    let mut gpu = GpuInfo { available: true, device_id: 3, ..Default::default() };
    let config = get_recommended_config(&gpu);
    assert_eq!(
        config,
        GpuConfig {
            use_gpu: true,
            device_id: 3,
            batch_size: 1,
            num_threads: 4,
            memory_limit_percent: 80
        }
    );
    gpu.memory_mb = Some(8000);
    let config = get_recommended_config(&gpu);
    assert_eq!((config.batch_size, config.memory_limit_percent), (4, 80));
    gpu.memory_mb = Some(7999);
    let config = get_recommended_config(&gpu);
    assert_eq!((config.batch_size, config.memory_limit_percent), (2, 70));
    gpu.memory_mb = Some(6000);
    let config = get_recommended_config(&gpu);
    assert_eq!((config.batch_size, config.memory_limit_percent), (2, 70));
    gpu.memory_mb = Some(5999);
    let config = get_recommended_config(&gpu);
    assert_eq!((config.batch_size, config.memory_limit_percent), (1, 60));
    gpu.memory_mb = Some(3999);
    let config = get_recommended_config(&gpu);
    assert_eq!((config.batch_size, config.memory_limit_percent), (1, 50));
    gpu.available = false;
    let config = get_recommended_config(&gpu);
    assert_eq!(
        config,
        GpuConfig {
            use_gpu: false,
            device_id: 0,
            batch_size: 1,
            num_threads: 4,
            memory_limit_percent: 80
        }
    );
}

#[test]
fn parse_version_edge_cases() {
    assert_eq!(parse_version("  12.4  "), Some((12, 4, 0)));
    assert_eq!(parse_version("12.x"), Some((12, 0, 0)));
    assert_eq!(parse_version("12..7"), Some((12, 0, 7)));
    assert_eq!(parse_version("12.4.1.9"), Some((12, 4, 1)));
    assert_eq!(parse_version("+12.+4"), Some((12, 4, 0)));
    assert_eq!(parse_version("x.1"), None);
    assert_eq!(parse_version("-1.0"), None);
    assert_eq!(parse_version("12 .4"), None);
    assert_eq!(parse_version("12. 4"), Some((12, 0, 0)));
    assert_eq!(parse_version("   "), None);
    assert_eq!(parse_version("4294967295.0"), Some((4294967295, 0, 0)));
    assert_eq!(parse_version("4294967296.0"), None);
    assert_eq!(parse_version("1.4294967296"), Some((1, 0, 0)));
    assert_eq!(parse_version("007.08"), Some((7, 8, 0)));
    assert_eq!(parse_version("+"), None);
}

#[test]
fn compare_versions_with_unparsable_text() {
    assert_eq!(compare_versions("abc", "1.0"), -1);
    assert_eq!(compare_versions("1.0", "abc"), 1);
    assert_eq!(compare_versions("abc", ""), 0);
    assert_eq!(compare_versions("0", "abc"), 1);
    assert_eq!(compare_parsed_versions(None, Some((0, 0, 0))), -1);
    assert_eq!(compare_parsed_versions(Some((1, 2, 3)), Some((1, 2, 4))), -1);
    assert_eq!(compare_parsed_versions(Some((1, 3, 0)), Some((1, 2, 9))), 1);
    assert_eq!(compare_parsed_versions(Some((2, 0, 0)), Some((1, 9, 9))), 1);
    assert_eq!(compare_parsed_versions(None, None), 0);
}

#[test]
fn compare_versions_is_antisymmetric_on_samples() {
    let samples = ["12.4", "11.8", "11.8.1", "10", "", "x", "11.0.0", "11.0"];
    for a in samples {
        for b in samples {
            assert_eq!(compare_versions(a, b), -compare_versions(b, a));
        }
        assert_eq!(compare_versions(a, a), 0);
    }
}

#[test]
fn compatibility_of_each_generation_at_its_minimum() {
    let generations = [
        GpuArchitecture::Turing,
        GpuArchitecture::Ampere,
        GpuArchitecture::AdaLovelace,
        GpuArchitecture::Blackwell,
        GpuArchitecture::Unknown,
    ];
    for architecture in generations {
        let mut gpu = GpuInfo {
            available: true,
            vendor: GpuVendor::Nvidia,
            architecture: Some(architecture),
            cuda_version: Some(architecture.min_cuda_version().to_string()),
            ..Default::default()
        };
        let compat = check_cuda_compatibility(&gpu);
        assert!(compat.compatible);
        assert_eq!(compat.upgrade_suggestion, None);
        assert_eq!(compat.current_version.as_deref(), Some(architecture.min_cuda_version()));
        gpu.cuda_version = None;
        let compat = check_cuda_compatibility(&gpu);
        assert!(!compat.compatible);
        assert_eq!(compat.current_version, None);
        assert!(!compat.upgrade_suggestion.unwrap().is_empty());
        gpu.cuda_version = Some("9.2".to_string());
        assert!(!check_cuda_compatibility(&gpu).compatible);
    }
}

#[test]
fn compatibility_without_generation_uses_unknown() {
    let gpu = GpuInfo { cuda_version: Some("10.0".to_string()), ..Default::default() };
    let compat = check_cuda_compatibility(&gpu);
    assert!(compat.compatible);
    assert_eq!(compat.required_version, "10.0");
    let gpu = GpuInfo { cuda_version: Some("garbage".to_string()), ..Default::default() };
    let compat = check_cuda_compatibility(&gpu);
    assert!(!compat.compatible);
    assert!(compat.upgrade_suggestion.is_some());
}

#[test]
fn upgrade_suggestion_text() {
    let text = generate_cuda_upgrade_suggestion(&GpuArchitecture::AdaLovelace, Some("11.0"));
    let expected = "当前 CUDA 版本: 11.0\n\n您的 Ada Lovelace 架构显卡需要 CUDA 11.8 或更高版本。\n\n建议操作:\n1. 访问 NVIDIA 驱动下载页面: https://www.nvidia.com/drivers\n2. 下载并安装最新版本的 NVIDIA 驱动程序\n3. 重启计算机后重新运行本应用\n\n注意: 更新驱动程序会自动包含对应的 CUDA 运行时支持。";
    assert_eq!(text, expected);
    let text = generate_cuda_upgrade_suggestion(&GpuArchitecture::Blackwell, None);
    assert!(text.starts_with("未检测到 CUDA 版本\n\n您的 Blackwell 架构显卡需要 CUDA 12.0 或更高版本。"));
    let gpu = GpuInfo {
        architecture: Some(GpuArchitecture::AdaLovelace),
        cuda_version: Some("11.0".to_string()),
        ..Default::default()
    };
    assert_eq!(check_cuda_compatibility(&gpu).upgrade_suggestion.as_deref(), Some(expected));
}

#[test]
fn compatibility_report_text() {
    let gpu = GpuInfo {
        available: true,
        name: Some("NVIDIA GeForce RTX 3080".to_string()),
        memory_mb: Some(10240),
        cuda_version: Some("12.4".to_string()),
        driver_version: Some("551.23".to_string()),
        device_id: 0,
        vendor: GpuVendor::Nvidia,
        architecture: Some(GpuArchitecture::Ampere),
        is_discrete: true,
    };
    assert_eq!(
        get_gpu_compatibility_report(&gpu),
        "GPU: NVIDIA GeForce RTX 3080\n厂商: Nvidia\n架构: Ampere\n显存: 10240 MB\n驱动版本: 551.23\nCUDA 版本: 12.4\n\n兼容性: ✓ 兼容\n所需 CUDA 版本: 11.0\n"
    );
    let intel = GpuInfo { vendor: GpuVendor::Intel, memory_mb: Some(0), ..Default::default() };
    assert_eq!(get_gpu_compatibility_report(&intel), "GPU: Unknown\n厂商: Intel\n显存: 0 MB\n");
    let old = GpuInfo {
        vendor: GpuVendor::Nvidia,
        architecture: Some(GpuArchitecture::Blackwell),
        ..Default::default()
    };
    let report = get_gpu_compatibility_report(&old);
    let suggestion = generate_cuda_upgrade_suggestion(&GpuArchitecture::Blackwell, None);
    assert_eq!(
        report,
        format!(
            "GPU: Unknown\n厂商: Nvidia\n架构: Blackwell\n\n兼容性: ✗ 不兼容\n所需 CUDA 版本: 12.0\n\n升级建议:\n{}\n",
            suggestion
        )
    );
}
