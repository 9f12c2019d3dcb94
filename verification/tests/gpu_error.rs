use creator_toolkit::gpu::error::{GpuError, GpuErrorCode};
use creator_toolkit::time::Timestamp;

#[test]
fn test_all_error_codes_have_descriptions() {
    let codes = [
        GpuErrorCode::DetectionFailed,
        GpuErrorCode::CudaVersionIncompatible,
        GpuErrorCode::DriverOutdated,
        GpuErrorCode::InsufficientMemory,
        GpuErrorCode::DirectMlInitFailed,
        GpuErrorCode::ModelLoadFailed,
        GpuErrorCode::ExecutionFailed,
        GpuErrorCode::Unknown,
    ];

    for code in codes {
        assert!(!code.description().is_empty(), "{:?} 应该有描述", code);
        assert!(!code.suggestion().is_empty(), "{:?} 应该有建议", code);
        assert!(!code.code().is_empty(), "{:?} 应该有错误码字符串", code);
    }
}

#[test]
fn test_gpu_error_from_message() {
    let error = GpuError::from_message("GPU detection failed");
    assert_eq!(error.code, GpuErrorCode::DetectionFailed);
}

#[test]
fn test_gpu_error_can_fallback() {
    let error = GpuError::new(GpuErrorCode::ModelLoadFailed, "test");
    assert!(!error.can_fallback_to_cpu());

    let error = GpuError::new(GpuErrorCode::ExecutionFailed, "test");
    assert!(error.can_fallback_to_cpu());
}

#[test]
fn classification_by_category() {
    let cases = [
        ("GPU detection failed", GpuErrorCode::DetectionFailed),
        ("device not found", GpuErrorCode::DetectionFailed),
        ("检测失败", GpuErrorCode::DetectionFailed),
        ("CUDA version incompatible", GpuErrorCode::CudaVersionIncompatible),
        ("CUDA 版本不兼容", GpuErrorCode::CudaVersionIncompatible),
        ("Driver outdated", GpuErrorCode::DriverOutdated),
        ("驱动版本过低", GpuErrorCode::DriverOutdated),
        ("Out of memory", GpuErrorCode::InsufficientMemory),
        ("显存不足", GpuErrorCode::InsufficientMemory),
        ("DirectML initialization failed", GpuErrorCode::DirectMlInitFailed),
        ("dml device lost", GpuErrorCode::DirectMlInitFailed),
        ("Model load failed", GpuErrorCode::ModelLoadFailed),
        ("模型加载失败", GpuErrorCode::ModelLoadFailed),
        ("could not load weights", GpuErrorCode::ModelLoadFailed),
        ("GPU execution error", GpuErrorCode::ExecutionFailed),
        ("执行失败", GpuErrorCode::ExecutionFailed),
        ("onnx runtime panicked", GpuErrorCode::ExecutionFailed),
        ("Unknown error occurred", GpuErrorCode::Unknown),
        ("", GpuErrorCode::Unknown),
    ];
    for (message, expected) in cases {
        assert_eq!(GpuErrorCode::from_error_message(message), expected, "{}", message);
    }
}

#[test]
fn classification_ignores_case() {
    assert_eq!(
        GpuErrorCode::from_error_message("GPU DETECTION FAILED"),
        GpuErrorCode::DetectionFailed
    );
    assert_eq!(GpuErrorCode::from_error_message("DRIVER"), GpuErrorCode::DriverOutdated);
    assert_eq!(GpuErrorCode::from_lowercase_message("DRIVER"), GpuErrorCode::Unknown);
    assert_eq!(GpuErrorCode::from_lowercase_message("driver"), GpuErrorCode::DriverOutdated);
}

#[test]
fn classification_follows_the_fixed_priority() {
    assert_eq!(
        GpuErrorCode::from_error_message("driver detection failed: out of memory"),
        GpuErrorCode::DetectionFailed
    );
    assert_eq!(
        GpuErrorCode::from_error_message("cuda driver version mismatch"),
        GpuErrorCode::CudaVersionIncompatible
    );
    assert_eq!(GpuErrorCode::from_error_message("cuda driver"), GpuErrorCode::DriverOutdated);
    assert_eq!(
        GpuErrorCode::from_error_message("model ran out of memory"),
        GpuErrorCode::InsufficientMemory
    );
    assert_eq!(
        GpuErrorCode::from_error_message("DirectML model execution"),
        GpuErrorCode::DirectMlInitFailed
    );
    assert_eq!(
        GpuErrorCode::from_error_message("model execution"),
        GpuErrorCode::ModelLoadFailed
    );
    assert_eq!(GpuErrorCode::from_error_message("version only"), GpuErrorCode::Unknown);
}

#[test]
fn classification_is_deterministic() {
    let messages = ["GPU detection failed", "显存不足", "something else", "CUDA version 12"];
    for message in messages {
        let first = GpuErrorCode::from_error_message(message);
        let second = GpuErrorCode::from_error_message(&message.to_string());
        assert_eq!(first, second);
    }
}

#[test]
fn fixed_texts_of_codes() {
    assert_eq!(GpuErrorCode::DetectionFailed.code(), "GPU_DETECTION_FAILED");
    assert_eq!(GpuErrorCode::CudaVersionIncompatible.code(), "CUDA_VERSION_INCOMPATIBLE");
    assert_eq!(GpuErrorCode::DriverOutdated.code(), "DRIVER_OUTDATED");
    assert_eq!(GpuErrorCode::InsufficientMemory.code(), "INSUFFICIENT_MEMORY");
    assert_eq!(GpuErrorCode::DirectMlInitFailed.code(), "DIRECTML_INIT_FAILED");
    assert_eq!(GpuErrorCode::ModelLoadFailed.code(), "MODEL_LOAD_FAILED");
    assert_eq!(GpuErrorCode::ExecutionFailed.code(), "GPU_EXECUTION_FAILED");
    assert_eq!(GpuErrorCode::Unknown.code(), "UNKNOWN_ERROR");
    assert_eq!(GpuErrorCode::Unknown.description(), "发生未知错误");
    assert_eq!(
        GpuErrorCode::ExecutionFailed.suggestion(),
        "1. 尝试重启应用\n2. 检查显卡温度是否过高\n3. 尝试切换到 CPU 模式"
    );
    assert_eq!(GpuErrorCode::DetectionFailed.doc_link(), None);
    assert_eq!(GpuErrorCode::InsufficientMemory.doc_link(), None);
    assert_eq!(GpuErrorCode::ModelLoadFailed.doc_link(), None);
    assert_eq!(GpuErrorCode::ExecutionFailed.doc_link(), None);
    assert_eq!(GpuErrorCode::Unknown.doc_link(), None);
    assert_eq!(
        GpuErrorCode::CudaVersionIncompatible.doc_link(),
        Some("https://www.nvidia.com/drivers")
    );
    assert_eq!(GpuErrorCode::DriverOutdated.doc_link(), Some("https://www.nvidia.com/drivers"));
    assert_eq!(
        GpuErrorCode::DirectMlInitFailed.doc_link(),
        Some("https://docs.microsoft.com/windows/ai/directml/")
    );
    assert_eq!(
        GpuErrorCode::DriverOutdated.to_string(),
        "[DRIVER_OUTDATED] 显卡驱动版本过低，需要更新"
    );
}

#[test]
fn only_model_load_failure_cannot_fall_back() {
    let codes = [
        GpuErrorCode::DetectionFailed,
        GpuErrorCode::CudaVersionIncompatible,
        GpuErrorCode::DriverOutdated,
        GpuErrorCode::InsufficientMemory,
        GpuErrorCode::DirectMlInitFailed,
        GpuErrorCode::ModelLoadFailed,
        GpuErrorCode::ExecutionFailed,
        GpuErrorCode::Unknown,
    ];
    for code in codes {
        let error = GpuError::new(code, "x");
        assert_eq!(error.can_fallback_to_cpu(), code != GpuErrorCode::ModelLoadFailed);
        assert_eq!(error.to_user_response().can_fallback, code != GpuErrorCode::ModelLoadFailed);
    }
}

#[test]
fn error_builders_and_user_response() {
    let when = Timestamp { seconds: 10, nanos: 0 };
    let error = GpuError::new_at(GpuErrorCode::DriverOutdated, "driver 300 is too old", when)
        .with_details("nvml code 9")
        .with_device_id(1);
    assert_eq!(error.code, GpuErrorCode::DriverOutdated);
    assert_eq!(error.message, "driver 300 is too old");
    assert_eq!(error.technical_details.as_deref(), Some("nvml code 9"));
    assert_eq!(error.device_id, Some(1));
    assert_eq!(error.timestamp, when);
    let response = error.to_user_response();
    assert_eq!(response.code, "DRIVER_OUTDATED");
    assert_eq!(response.title, "显卡驱动版本过低，需要更新");
    assert_eq!(response.message, "driver 300 is too old");
    assert_eq!(response.suggestion, GpuErrorCode::DriverOutdated.suggestion());
    assert_eq!(response.doc_link.as_deref(), Some("https://www.nvidia.com/drivers"));
    assert!(response.can_fallback);
    assert_eq!(
        error.to_string(),
        "[DRIVER_OUTDATED] 显卡驱动版本过低，需要更新: driver 300 is too old"
    );
    let fresh = GpuError::new(GpuErrorCode::Unknown, "now");
    assert!(fresh.timestamp.seconds > 1_600_000_000);
    assert_eq!(fresh.technical_details, None);
    assert_eq!(fresh.device_id, None);
    let classified = GpuError::from_message("模型文件损坏");
    assert_eq!(classified.code, GpuErrorCode::ModelLoadFailed);
    assert_eq!(classified.message, "模型文件损坏");
    assert_eq!(classified.to_user_response().doc_link, None);
}
