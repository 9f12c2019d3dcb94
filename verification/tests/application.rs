use creator_toolkit::ai::{AiProviderType, AiService, ChatMessage, SimpleEmbedder};
use creator_toolkit::asr::{AsrError, ModelInfo, Segment, TranscriptionResult};
use creator_toolkit::gpu::detect::ProbeOutput;
use creator_toolkit::gpu::device::{GpuArchitecture, GpuVendor};
use creator_toolkit::gpu::settings::{
    detect_gpu_info, get_recommended_gpu_config, validate_gpu_config, GpuConfig, GpuInfo,
};
use creator_toolkit::queue::{QueueError, QueueStats, TaskStatus, TaskType};

#[test]
fn test_model_info() {
    let info = ModelInfo::sense_voice();
    assert_eq!(info.name, "SenseVoice Small");
    assert_eq!(info.languages.len(), 5);
}

#[test]
fn model_catalogue() {
    let info = ModelInfo::sense_voice();
    assert_eq!(info.size_mb, 900);
    assert_eq!(info.languages, vec!["中文", "英语", "日语", "韩语", "粤语"]);
    assert_eq!(info.model_dir, "sense-voice");
    assert_eq!(
        info.download_url,
        "https://hf-mirror.com/csukuangfj/sherpa-onnx-sense-voice-zh-en-ja-ko-yue-2024-07-17/resolve/main"
    );
    assert!(!info.is_installed);
    let bge = ModelInfo::bge_small_zh();
    assert_eq!(bge.name, "BGE-small-zh-v1.5");
    assert_eq!(bge.description, "智源研究院，中文语义嵌入模型，用于知识库搜索");
    assert_eq!(bge.size_mb, 90);
    assert_eq!(bge.languages, vec!["中文"]);
    assert_eq!(bge.download_url, "https://hf-mirror.com/Xenova/bge-small-zh-v1.5/resolve/main/onnx");
    assert_eq!(bge.model_dir, "bge-small-zh");
    assert!(!bge.is_installed);
}

#[test]
fn asr_error_messages() {
    assert_eq!(AsrError::ModelNotFound("m".to_string()).to_string(), "模型文件不存在: m");
    assert_eq!(AsrError::ModelLoadFailed("m".to_string()).to_string(), "模型加载失败: m");
    assert_eq!(AsrError::AudioProcessingFailed("m".to_string()).to_string(), "音频处理失败: m");
    assert_eq!(AsrError::TranscriptionFailed("m".to_string()).to_string(), "转写失败: m");
    assert_eq!(AsrError::GpuNotAvailable("m".to_string()).to_string(), "GPU 不可用: m");
    assert_eq!(AsrError::DownloadFailed("m".to_string()).to_string(), "模型下载失败: m");
    assert_eq!(AsrError::IoError("m".to_string()).to_string(), "IO 错误: m");
    let transcript = TranscriptionResult {
        text: "你好".to_string(),
        segments: vec![Segment { start_ms: 0, end_ms: 500, text: "你好".to_string() }],
        duration_ms: 500,
        language: Some("zh".to_string()),
        emotion: None,
    };
    assert_eq!(transcript.segments[0].clone().end_ms, 500);
}

#[test]
fn task_states() {
    let all = [
        TaskStatus::Pending,
        TaskStatus::Running,
        TaskStatus::Paused,
        TaskStatus::Completed,
        TaskStatus::Failed("boom".to_string()),
        TaskStatus::Cancelled,
    ];
    let terminal = [false, false, false, true, true, true];
    let pause = [false, true, false, false, false, false];
    let resume = [false, false, true, false, false, false];
    for (i, status) in all.iter().enumerate() {
        assert_eq!(status.is_terminal(), terminal[i]);
        assert_eq!(status.can_pause(), pause[i]);
        assert_eq!(status.can_resume(), resume[i]);
        assert_eq!(status.can_cancel(), !terminal[i]);
        assert_eq!(status.clone().is_terminal(), terminal[i]);
    }
}

#[test]
fn task_descriptions_and_errors() {
    let transcription = TaskType::VideoTranscription {
        video_path: "/v/a.mp4".to_string(),
        video_name: "a.mp4".to_string(),
    };
    assert_eq!(transcription.description(), "转写视频: a.mp4");
    let none = TaskType::LinkParsing { links: vec![] };
    assert_eq!(none.description(), "解析链接: 0 个");
    let links = TaskType::LinkParsing { links: vec!["x".to_string(); 12] };
    assert_eq!(links.description(), "解析链接: 12 个");
    let download = TaskType::VideoDownload {
        url: "https://v.douyin.com/x".to_string(),
        output_path: "/tmp".to_string(),
        video_name: "clip".to_string(),
    };
    assert_eq!(download.description(), "下载视频: clip");
    let analysis = TaskType::AiAnalysis { content: "c".to_string(), video_id: "1".to_string() };
    assert_eq!(analysis.description(), "AI 分析");
    assert_eq!(QueueError::TaskNotFound("task_1".to_string()).to_string(), "任务不存在: task_1");
    assert_eq!(
        QueueError::InvalidStateTransition("no".to_string()).to_string(),
        "无效的状态转换: no"
    );
    assert_eq!(QueueError::QueueFull.to_string(), "队列已满");
    let stats =
        QueueStats { pending: 1, running: 1, completed: 2, failed: 0, cancelled: 0, total: 4 };
    assert_eq!(stats.pending + stats.running + stats.completed, stats.total);
}

#[test]
fn ai_service_settings() {
    let mut service = AiService::new();
    assert_eq!(service.provider_type, AiProviderType::LmStudio);
    assert_eq!(service.lm_studio_url, "http://localhost:1234");
    assert_eq!(service.doubao_api_key, None);
    assert_eq!(service.openai_api_key, None);
    assert_eq!(service.deepseek_api_key, None);
    assert!(service.is_ready());
    assert_eq!(service.selected_key(), None);
    service.set_provider(AiProviderType::Doubao);
    assert!(!service.is_ready());
    service.set_openai_key("sk-open".to_string());
    service.set_deepseek_key("sk-deep".to_string());
    assert!(!service.is_ready());
    assert_eq!(service.selected_key(), None);
    service.set_doubao_key("db-key".to_string());
    assert!(service.is_ready());
    assert_eq!(service.selected_key().as_deref(), Some("db-key"));
    service.set_provider(AiProviderType::OpenAi);
    assert_eq!(service.selected_key().as_deref(), Some("sk-open"));
    service.set_provider(AiProviderType::DeepSeek);
    assert_eq!(service.selected_key().as_deref(), Some("sk-deep"));
    service.set_lm_studio_url("http://10.0.0.2:1234".to_string());
    service.set_provider(AiProviderType::LmStudio);
    assert_eq!(service.selected_key(), None);
    let copy = service.clone();
    assert_eq!(copy.lm_studio_url, "http://10.0.0.2:1234");
    assert_eq!(copy.doubao_api_key.as_deref(), Some("db-key"));
    assert_eq!(AiService::default().provider_type, AiProviderType::LmStudio);
    let message = ChatMessage { role: "user".to_string(), content: "hi".to_string() };
    assert_eq!(message.clone().role, "user");
}

#[test]
fn embedder_buckets() {
    let embedder = SimpleEmbedder::new(384);
    assert_eq!(embedder.dimension(), 384);
    assert_eq!(embedder.bucket('a'), 97);
    assert_eq!(embedder.bucket('中'), 0x4E2D % 384);
    assert_eq!(SimpleEmbedder::new(1).bucket('z'), 0);
    assert_eq!(SimpleEmbedder::new(0).dimension(), 0);
}

fn shown(available: bool, memory_mb: Option<u64>) -> GpuInfo {
    GpuInfo {
        available,
        name: None,
        memory_mb,
        cuda_version: None,
        driver_version: None,
        device_id: 0,
        vendor: None,
        architecture: None,
        is_discrete: false,
    }
}

#[test]
fn recommended_settings_by_memory() {
    let cases: [(Option<u64>, u32, u64, u32, &str); 10] = [
        (Some(8192), 8, 5734, 4, "高性能配置（8GB+ 显存）"),
        (Some(24576), 8, 17203, 4, "高性能配置（8GB+ 显存）"),
        (Some(8191), 6, 5733, 2, "推荐配置（6GB 显存）"),
        (Some(6144), 6, 4300, 2, "推荐配置（6GB 显存）"),
        (Some(6143), 4, 3685, 1, "标准配置（4GB 显存）"),
        (Some(4096), 4, 2457, 1, "标准配置（4GB 显存）"),
        (Some(4095), 2, 2047, 1, "低显存配置（2GB 显存）"),
        (Some(2048), 2, 1024, 1, "低显存配置（2GB 显存）"),
        (Some(2047), 4, 0, 1, "显存不足，建议使用 CPU 模式"),
        (None, 4, 0, 1, "显存不足，建议使用 CPU 模式"),
    ];
    for (memory, threads, limit, batch, reason) in cases {
        let config = get_recommended_gpu_config(&shown(true, memory));
        assert_eq!(config.threads, threads);
        assert_eq!(config.memory_limit_mb, limit);
        assert_eq!(config.batch_size, batch);
        assert_eq!(config.reason, reason);
    }
    let config = get_recommended_gpu_config(&shown(false, Some(24576)));
    assert_eq!((config.threads, config.memory_limit_mb, config.batch_size), (4, 0, 1));
    assert_eq!(config.reason, "GPU 不可用，使用 CPU 模式");
    let config = get_recommended_gpu_config(&shown(true, Some(u64::MAX)));
    assert_eq!(config.memory_limit_mb, 12912720851596686130);
    assert_eq!(config.clone().threads, 8);
}

#[test]
fn settings_validation() {
    let gpu = shown(true, Some(4096));
    let good = GpuConfig { enabled: true, threads: 4, memory_limit_mb: 4096, batch_size: 1 };
    assert_eq!(validate_gpu_config(&good, &gpu), Ok(true));
    assert_eq!(GpuConfig::default(), GpuConfig { memory_limit_mb: 2048, ..good });
    let disabled = GpuConfig { enabled: false, threads: 0, memory_limit_mb: 1 << 40, batch_size: 0 };
    assert_eq!(validate_gpu_config(&disabled, &shown(false, None)), Ok(true));
    assert_eq!(
        validate_gpu_config(&good, &shown(false, Some(4096))),
        Err("GPU 不可用，无法启用 GPU 加速".to_string())
    );
    assert_eq!(
        validate_gpu_config(&GpuConfig { memory_limit_mb: 4097, threads: 0, ..good }, &gpu),
        Err("显存限制 (4097 MB) 超过可用显存 (4096 MB)".to_string())
    );
    assert_eq!(
        validate_gpu_config(&GpuConfig { memory_limit_mb: 1, ..good }, &shown(true, None)),
        Err("显存限制 (1 MB) 超过可用显存 (0 MB)".to_string())
    );
    for threads in [0, 33] {
        assert_eq!(
            validate_gpu_config(&GpuConfig { threads, batch_size: 0, ..good }, &gpu),
            Err("线程数必须在 1-32 之间".to_string())
        );
    }
    for batch_size in [0, 17] {
        assert_eq!(
            validate_gpu_config(&GpuConfig { batch_size, ..good }, &gpu),
            Err("批处理大小必须在 1-16 之间".to_string())
        );
    }
    assert_eq!(
        validate_gpu_config(&GpuConfig { threads: 32, batch_size: 16, memory_limit_mb: 0, ..good }, &gpu),
        Ok(true)
    );
}

#[test]
fn detection_for_the_settings_screen() {
    let probe = ProbeOutput {
        adapters: Some(
            "Node,AdapterRAM,Name\nPC,1073741824,Intel(R) UHD Graphics 630\nPC,4293918720,NVIDIA GeForce RTX 4090\n"
                .to_string(),
        ),
        driver_query: Some("551.23".to_string()),
        cuda_query: Some("11.0".to_string()),
        summary: None,
    };
    let info = detect_gpu_info(&probe);
    assert_eq!(info.devices.len(), 2);
    assert_eq!(info.recommended_device, Some(1));
    assert!(info.gpu_available);
    assert_eq!(info.fallback_reason, None);
    assert_eq!(info.devices[0].vendor.as_deref(), Some("Intel"));
    assert_eq!(info.devices[0].architecture, None);
    assert_eq!(info.devices[1].vendor.as_deref(), Some("Nvidia"));
    assert_eq!(info.devices[1].architecture.as_deref(), Some("Ada Lovelace"));
    assert_eq!(info.devices[1].cuda_version.as_deref(), Some("11.0"));
    assert!(info.devices[1].is_discrete);
    let report = info.compatibility_report.unwrap();
    assert!(report.starts_with("GPU: NVIDIA GeForce RTX 4090\n厂商: Nvidia\n架构: Ada Lovelace\n显存: 4095 MB\n驱动版本: 551.23\nCUDA 版本: 11.0\n\n兼容性: ✗ 不兼容\n所需 CUDA 版本: 11.8\n\n升级建议:\n当前 CUDA 版本: 11.0\n"));
    let nothing = detect_gpu_info(&ProbeOutput::unavailable());
    assert!(nothing.devices.is_empty());
    assert_eq!(nothing.recommended_device, None);
    assert!(!nothing.gpu_available);
    assert_eq!(nothing.compatibility_report, None);
    assert_eq!(nothing.fallback_reason.as_deref(), Some("未检测到任何 GPU 设备"));
    let detected = creator_toolkit::gpu::device::GpuInfo {
        vendor: GpuVendor::Amd,
        architecture: Some(GpuArchitecture::Unknown),
        ..Default::default()
    };
    let shown = GpuInfo::from_detected(&detected);
    assert_eq!(shown.vendor.as_deref(), Some("Amd"));
    assert_eq!(shown.architecture.as_deref(), Some("Unknown"));
    assert_eq!(shown.clone().device_id, 0);
}
