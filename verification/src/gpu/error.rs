//! Structured GPU errors: a closed set of codes with fixed texts, and the
//! classification of free-text messages into them.

use crate::text::case::{lowercase_spec, to_lowercase};
use crate::text::chars::{chars_of, clone_text};
use crate::text::search::{contains_spec, contains_text};
use crate::time::{current_time, Timestamp};
use vstd::prelude::*;

verus! {

/// What went wrong with the GPU.
#[derive(Debug, Clone, Copy, PartialEq, Eq, Structural)]
pub enum GpuErrorCode {
    /// No adapter could be identified.
    DetectionFailed,
    /// The CUDA version does not suit the card's generation.
    CudaVersionIncompatible,
    /// The driver is too old.
    DriverOutdated,
    /// The card has too little memory.
    InsufficientMemory,
    /// DirectML could not be initialised.
    DirectMlInitFailed,
    /// The model could not be loaded.
    ModelLoadFailed,
    /// The computation failed on the GPU.
    ExecutionFailed,
    /// Anything else.
    Unknown,
}

/// A lowercased message speaks of detection.
pub open spec fn mentions_detection(lower: Seq<char>) -> bool {
    ||| contains_spec(lower, "detection"@)
    ||| contains_spec(lower, "检测"@)
    ||| contains_spec(lower, "not found"@)
}

/// A lowercased message speaks of the CUDA version.
pub open spec fn mentions_cuda_version(lower: Seq<char>) -> bool {
    contains_spec(lower, "cuda"@) && (contains_spec(lower, "version"@) || contains_spec(
        lower,
        "版本"@,
    ))
}

/// A lowercased message speaks of the driver.
pub open spec fn mentions_driver(lower: Seq<char>) -> bool {
    contains_spec(lower, "driver"@) || contains_spec(lower, "驱动"@)
}

/// A lowercased message speaks of memory.
pub open spec fn mentions_memory(lower: Seq<char>) -> bool {
    ||| contains_spec(lower, "memory"@)
    ||| contains_spec(lower, "显存"@)
    ||| contains_spec(lower, "out of memory"@)
}

/// A lowercased message speaks of DirectML.
pub open spec fn mentions_directml(lower: Seq<char>) -> bool {
    contains_spec(lower, "directml"@) || contains_spec(lower, "dml"@)
}

/// A lowercased message speaks of a model or of loading.
pub open spec fn mentions_model(lower: Seq<char>) -> bool {
    ||| contains_spec(lower, "model"@)
    ||| contains_spec(lower, "模型"@)
    ||| contains_spec(lower, "load"@)
}

/// A lowercased message speaks of execution.
pub open spec fn mentions_execution(lower: Seq<char>) -> bool {
    ||| contains_spec(lower, "execution"@)
    ||| contains_spec(lower, "执行"@)
    ||| contains_spec(lower, "runtime"@)
}

impl GpuErrorCode {
    /// The code of a lowercased message: the first category, in the fixed
    /// order detection, CUDA version, driver, memory, DirectML, model,
    /// execution, whose keywords occur in it.
    pub open spec fn of_lowercase(lower: Seq<char>) -> GpuErrorCode {
        if mentions_detection(lower) {
            GpuErrorCode::DetectionFailed
        } else if mentions_cuda_version(lower) {
            GpuErrorCode::CudaVersionIncompatible
        } else if mentions_driver(lower) {
            GpuErrorCode::DriverOutdated
        } else if mentions_memory(lower) {
            GpuErrorCode::InsufficientMemory
        } else if mentions_directml(lower) {
            GpuErrorCode::DirectMlInitFailed
        } else if mentions_model(lower) {
            GpuErrorCode::ModelLoadFailed
        } else if mentions_execution(lower) {
            GpuErrorCode::ExecutionFailed
        } else {
            GpuErrorCode::Unknown
        }
    }

    /// The code of a message, whatever the case of its letters.
    pub open spec fn from_error_message_spec(message: Seq<char>) -> GpuErrorCode {
        Self::of_lowercase(lowercase_spec(message))
    }

    /// The identifier of a code.
    pub open spec fn code_spec(self) -> Seq<char> {
        match self {
            GpuErrorCode::DetectionFailed => "GPU_DETECTION_FAILED"@,
            GpuErrorCode::CudaVersionIncompatible => "CUDA_VERSION_INCOMPATIBLE"@,
            GpuErrorCode::DriverOutdated => "DRIVER_OUTDATED"@,
            GpuErrorCode::InsufficientMemory => "INSUFFICIENT_MEMORY"@,
            GpuErrorCode::DirectMlInitFailed => "DIRECTML_INIT_FAILED"@,
            GpuErrorCode::ModelLoadFailed => "MODEL_LOAD_FAILED"@,
            GpuErrorCode::ExecutionFailed => "GPU_EXECUTION_FAILED"@,
            GpuErrorCode::Unknown => "UNKNOWN_ERROR"@,
        }
    }

    /// The description of a code.
    pub open spec fn description_spec(self) -> Seq<char> {
        match self {
            GpuErrorCode::DetectionFailed => "GPU 检测失败，无法识别系统中的显卡设备"@,
            GpuErrorCode::CudaVersionIncompatible => "CUDA 版本与显卡架构不兼容"@,
            GpuErrorCode::DriverOutdated => "显卡驱动版本过低，需要更新"@,
            GpuErrorCode::InsufficientMemory => "显存不足，无法加载模型"@,
            GpuErrorCode::DirectMlInitFailed => "DirectML 初始化失败，可能是 Windows 版本过低"@,
            GpuErrorCode::ModelLoadFailed => "模型加载失败，请检查模型文件是否完整"@,
            GpuErrorCode::ExecutionFailed => "GPU 执行过程中发生错误"@,
            GpuErrorCode::Unknown => "发生未知错误"@,
        }
    }

    /// The remediation steps of a code.
    pub open spec fn suggestion_spec(self) -> Seq<char> {
        match self {
            GpuErrorCode::DetectionFailed => "1. 检查显卡是否正确安装\n2. 确保显卡驱动已正确安装\n3. 尝试重启计算机"@,
            GpuErrorCode::CudaVersionIncompatible => "1. 访问 NVIDIA 驱动下载页面下载最新驱动\n2. 安装最新版本的 NVIDIA 驱动程序\n3. 重启计算机后重新运行应用"@,
            GpuErrorCode::DriverOutdated => "1. 访问 https://www.nvidia.com/drivers 下载最新驱动\n2. 或使用 GeForce Experience 自动更新驱动\n3. 安装完成后重启计算机"@,
            GpuErrorCode::InsufficientMemory => "1. 关闭其他占用显存的程序（如游戏、视频编辑软件）\n2. 降低批处理大小设置\n3. 或切换到 CPU 模式运行"@,
            GpuErrorCode::DirectMlInitFailed => "1. 确保 Windows 版本 >= 1903 (Windows 10 May 2019 Update)\n2. 更新 Windows 到最新版本\n3. 确保已安装最新的显卡驱动"@,
            GpuErrorCode::ModelLoadFailed => "1. 检查模型文件是否存在且完整\n2. 尝试重新下载模型\n3. 检查磁盘空间是否充足"@,
            GpuErrorCode::ExecutionFailed => "1. 尝试重启应用\n2. 检查显卡温度是否过高\n3. 尝试切换到 CPU 模式"@,
            GpuErrorCode::Unknown => "1. 查看日志文件获取详细错误信息\n2. 尝试重启应用\n3. 如问题持续，请联系技术支持"@,
        }
    }

    /// The documentation link of a code, where it has one.
    pub open spec fn doc_link_spec(self) -> Option<Seq<char>> {
        match self {
            GpuErrorCode::CudaVersionIncompatible => Some("https://www.nvidia.com/drivers"@),
            GpuErrorCode::DriverOutdated => Some("https://www.nvidia.com/drivers"@),
            GpuErrorCode::DirectMlInitFailed => Some(
                "https://docs.microsoft.com/windows/ai/directml/"@,
            ),
            _ => None,
        }
    }

    /// Whether retrying on the CPU makes sense: not for a model that could
    /// not be loaded, which is a fault of the data and not of the device.
    pub open spec fn can_fallback_spec(self) -> bool {
        self != GpuErrorCode::ModelLoadFailed
    }

    /// A code written as `[<identifier>] <description>`.
    pub open spec fn text(self) -> Seq<char> {
        "["@ + self.code_spec() + "] "@ + self.description_spec()
    }

    pub fn code(&self) -> (code: &'static str)
        ensures
            code@ == self.code_spec(),
            code@.len() > 0,
    {
        proof {
            reveal_strlit("GPU_DETECTION_FAILED");
            reveal_strlit("CUDA_VERSION_INCOMPATIBLE");
            reveal_strlit("DRIVER_OUTDATED");
            reveal_strlit("INSUFFICIENT_MEMORY");
            reveal_strlit("DIRECTML_INIT_FAILED");
            reveal_strlit("MODEL_LOAD_FAILED");
            reveal_strlit("GPU_EXECUTION_FAILED");
            reveal_strlit("UNKNOWN_ERROR");
        }
        match self {
            GpuErrorCode::DetectionFailed => "GPU_DETECTION_FAILED",
            GpuErrorCode::CudaVersionIncompatible => "CUDA_VERSION_INCOMPATIBLE",
            GpuErrorCode::DriverOutdated => "DRIVER_OUTDATED",
            GpuErrorCode::InsufficientMemory => "INSUFFICIENT_MEMORY",
            GpuErrorCode::DirectMlInitFailed => "DIRECTML_INIT_FAILED",
            GpuErrorCode::ModelLoadFailed => "MODEL_LOAD_FAILED",
            GpuErrorCode::ExecutionFailed => "GPU_EXECUTION_FAILED",
            GpuErrorCode::Unknown => "UNKNOWN_ERROR",
        }
    }

    pub fn description(&self) -> (description: &'static str)
        ensures
            description@ == self.description_spec(),
            description@.len() > 0,
    {
        proof {
            reveal_strlit("GPU 检测失败，无法识别系统中的显卡设备");
            reveal_strlit("CUDA 版本与显卡架构不兼容");
            reveal_strlit("显卡驱动版本过低，需要更新");
            reveal_strlit("显存不足，无法加载模型");
            reveal_strlit("DirectML 初始化失败，可能是 Windows 版本过低");
            reveal_strlit("模型加载失败，请检查模型文件是否完整");
            reveal_strlit("GPU 执行过程中发生错误");
            reveal_strlit("发生未知错误");
        }
        match self {
            GpuErrorCode::DetectionFailed => "GPU 检测失败，无法识别系统中的显卡设备",
            GpuErrorCode::CudaVersionIncompatible => "CUDA 版本与显卡架构不兼容",
            GpuErrorCode::DriverOutdated => "显卡驱动版本过低，需要更新",
            GpuErrorCode::InsufficientMemory => "显存不足，无法加载模型",
            GpuErrorCode::DirectMlInitFailed => "DirectML 初始化失败，可能是 Windows 版本过低",
            GpuErrorCode::ModelLoadFailed => "模型加载失败，请检查模型文件是否完整",
            GpuErrorCode::ExecutionFailed => "GPU 执行过程中发生错误",
            GpuErrorCode::Unknown => "发生未知错误",
        }
    }

    pub fn suggestion(&self) -> (suggestion: &'static str)
        ensures
            suggestion@ == self.suggestion_spec(),
            suggestion@.len() > 0,
    {
        proof {
            reveal_strlit("1. 检查显卡是否正确安装\n2. 确保显卡驱动已正确安装\n3. 尝试重启计算机");
            reveal_strlit(
                "1. 访问 NVIDIA 驱动下载页面下载最新驱动\n2. 安装最新版本的 NVIDIA 驱动程序\n3. 重启计算机后重新运行应用",
            );
            reveal_strlit(
                "1. 访问 https://www.nvidia.com/drivers 下载最新驱动\n2. 或使用 GeForce Experience 自动更新驱动\n3. 安装完成后重启计算机",
            );
            reveal_strlit(
                "1. 关闭其他占用显存的程序（如游戏、视频编辑软件）\n2. 降低批处理大小设置\n3. 或切换到 CPU 模式运行",
            );
            reveal_strlit(
                "1. 确保 Windows 版本 >= 1903 (Windows 10 May 2019 Update)\n2. 更新 Windows 到最新版本\n3. 确保已安装最新的显卡驱动",
            );
            reveal_strlit("1. 检查模型文件是否存在且完整\n2. 尝试重新下载模型\n3. 检查磁盘空间是否充足");
            reveal_strlit("1. 尝试重启应用\n2. 检查显卡温度是否过高\n3. 尝试切换到 CPU 模式");
            reveal_strlit("1. 查看日志文件获取详细错误信息\n2. 尝试重启应用\n3. 如问题持续，请联系技术支持");
        }
        match self {
            GpuErrorCode::DetectionFailed => "1. 检查显卡是否正确安装\n2. 确保显卡驱动已正确安装\n3. 尝试重启计算机",
            GpuErrorCode::CudaVersionIncompatible => "1. 访问 NVIDIA 驱动下载页面下载最新驱动\n2. 安装最新版本的 NVIDIA 驱动程序\n3. 重启计算机后重新运行应用",
            GpuErrorCode::DriverOutdated => "1. 访问 https://www.nvidia.com/drivers 下载最新驱动\n2. 或使用 GeForce Experience 自动更新驱动\n3. 安装完成后重启计算机",
            GpuErrorCode::InsufficientMemory => "1. 关闭其他占用显存的程序（如游戏、视频编辑软件）\n2. 降低批处理大小设置\n3. 或切换到 CPU 模式运行",
            GpuErrorCode::DirectMlInitFailed => "1. 确保 Windows 版本 >= 1903 (Windows 10 May 2019 Update)\n2. 更新 Windows 到最新版本\n3. 确保已安装最新的显卡驱动",
            GpuErrorCode::ModelLoadFailed => "1. 检查模型文件是否存在且完整\n2. 尝试重新下载模型\n3. 检查磁盘空间是否充足",
            GpuErrorCode::ExecutionFailed => "1. 尝试重启应用\n2. 检查显卡温度是否过高\n3. 尝试切换到 CPU 模式",
            GpuErrorCode::Unknown => "1. 查看日志文件获取详细错误信息\n2. 尝试重启应用\n3. 如问题持续，请联系技术支持",
        }
    }

    pub fn doc_link(&self) -> (link: Option<&'static str>)
        ensures
            match link {
                Some(url) => self.doc_link_spec() == Some(url@),
                None => self.doc_link_spec() is None,
            },
    {
        match self {
            GpuErrorCode::DetectionFailed => None,
            GpuErrorCode::CudaVersionIncompatible => Some("https://www.nvidia.com/drivers"),
            GpuErrorCode::DriverOutdated => Some("https://www.nvidia.com/drivers"),
            GpuErrorCode::InsufficientMemory => None,
            GpuErrorCode::DirectMlInitFailed => Some(
                "https://docs.microsoft.com/windows/ai/directml/",
            ),
            GpuErrorCode::ModelLoadFailed => None,
            GpuErrorCode::ExecutionFailed => None,
            GpuErrorCode::Unknown => None,
        }
    }

    /// Classifies a message that is already in lowercase.
    pub fn from_lowercase_message(lower: &str) -> (code: Self)
        ensures
            code == Self::of_lowercase(lower@),
    {
        let text = chars_of(lower);
        if contains_text(&text, "detection") || contains_text(&text, "检测") || contains_text(
            &text,
            "not found",
        ) {
            return GpuErrorCode::DetectionFailed;
        }
        if contains_text(&text, "cuda") && (contains_text(&text, "version") || contains_text(
            &text,
            "版本",
        )) {
            return GpuErrorCode::CudaVersionIncompatible;
        }
        if contains_text(&text, "driver") || contains_text(&text, "驱动") {
            return GpuErrorCode::DriverOutdated;
        }
        if contains_text(&text, "memory") || contains_text(&text, "显存") || contains_text(
            &text,
            "out of memory",
        ) {
            return GpuErrorCode::InsufficientMemory;
        }
        if contains_text(&text, "directml") || contains_text(&text, "dml") {
            return GpuErrorCode::DirectMlInitFailed;
        }
        if contains_text(&text, "model") || contains_text(&text, "模型") || contains_text(
            &text,
            "load",
        ) {
            return GpuErrorCode::ModelLoadFailed;
        }
        if contains_text(&text, "execution") || contains_text(&text, "执行") || contains_text(
            &text,
            "runtime",
        ) {
            return GpuErrorCode::ExecutionFailed;
        }
        GpuErrorCode::Unknown
    }

    /// Classifies a free-text error message. The code depends on the
    /// characters of the message alone.
    pub fn from_error_message(message: &str) -> (code: Self)
        ensures
            code == Self::from_error_message_spec(message@),
    {
        let lower = to_lowercase(message);
        Self::from_lowercase_message(lower.as_str())
    }

    /// Writes the code as `[<identifier>] <description>`.
    pub fn to_string(&self) -> (text: String)
        ensures
            text@ == self.text(),
    {
        let mut text = String::from_str("[");
        text.append(self.code());
        text.append("] ");
        text.append(self.description());
        text
    }
}

/// Messages with the same characters are classified alike.
pub proof fn law_classification_deterministic(first: Seq<char>, second: Seq<char>)
    requires
        first == second,
    ensures
        GpuErrorCode::from_error_message_spec(first) == GpuErrorCode::from_error_message_spec(
            second,
        ),
{
}

/// A category is chosen only where no category before it matches, and
/// the unknown code only where none matches at all.
pub proof fn law_classification_priority(lower: Seq<char>)
    ensures
        mentions_detection(lower) ==> GpuErrorCode::of_lowercase(lower)
            == GpuErrorCode::DetectionFailed,
        GpuErrorCode::of_lowercase(lower) == GpuErrorCode::ExecutionFailed ==> !mentions_model(
            lower,
        ) && !mentions_directml(lower) && !mentions_memory(lower) && !mentions_driver(lower)
            && !mentions_cuda_version(lower) && !mentions_detection(lower),
        GpuErrorCode::of_lowercase(lower) == GpuErrorCode::Unknown <==> !mentions_detection(lower)
            && !mentions_cuda_version(lower) && !mentions_driver(lower) && !mentions_memory(lower)
            && !mentions_directml(lower) && !mentions_model(lower) && !mentions_execution(lower),
{
}

/// What a user is shown of an error.
#[derive(Debug)]
pub struct GpuErrorResponse {
    pub code: String,
    pub title: String,
    pub message: String,
    pub suggestion: String,
    pub doc_link: Option<String>,
    pub can_fallback: bool,
}

/// What a user is shown of an error, with its texts as character
/// sequences.
pub struct GpuErrorResponseView {
    pub code: Seq<char>,
    pub title: Seq<char>,
    pub message: Seq<char>,
    pub suggestion: Seq<char>,
    pub doc_link: Option<Seq<char>>,
    pub can_fallback: bool,
}

impl View for GpuErrorResponse {
    type V = GpuErrorResponseView;

    open spec fn view(&self) -> GpuErrorResponseView {
        GpuErrorResponseView {
            code: self.code@,
            title: self.title@,
            message: self.message@,
            suggestion: self.suggestion@,
            doc_link: self.doc_link.deep_view(),
            can_fallback: self.can_fallback,
        }
    }
}

impl Clone for GpuErrorResponse {
    fn clone(&self) -> (copy: Self)
        ensures
            copy == *self,
    {
        GpuErrorResponse {
            code: self.code.clone(),
            title: self.title.clone(),
            message: self.message.clone(),
            suggestion: self.suggestion.clone(),
            doc_link: clone_text(&self.doc_link),
            can_fallback: self.can_fallback,
        }
    }
}

/// An error, with its texts as character sequences.
pub struct GpuErrorView {
    pub code: GpuErrorCode,
    pub message: Seq<char>,
    pub technical_details: Option<Seq<char>>,
    pub device_id: Option<i32>,
    pub timestamp: Timestamp,
}

impl GpuErrorView {
    /// What a user is shown of the error.
    pub open spec fn user_response(self) -> GpuErrorResponseView {
        GpuErrorResponseView {
            code: self.code.code_spec(),
            title: self.code.description_spec(),
            message: self.message,
            suggestion: self.code.suggestion_spec(),
            doc_link: self.code.doc_link_spec(),
            can_fallback: self.code.can_fallback_spec(),
        }
    }

    /// The error written as `[<identifier>] <description>: <message>`.
    pub open spec fn text(self) -> Seq<char> {
        self.code.text() + ": "@ + self.message
    }
}

/// A GPU error with its code, its message and where and when it arose.
#[derive(Debug)]
pub struct GpuError {
    pub code: GpuErrorCode,
    pub message: String,
    pub technical_details: Option<String>,
    pub device_id: Option<i32>,
    pub timestamp: Timestamp,
}

impl View for GpuError {
    type V = GpuErrorView;

    open spec fn view(&self) -> GpuErrorView {
        GpuErrorView {
            code: self.code,
            message: self.message@,
            technical_details: self.technical_details.deep_view(),
            device_id: self.device_id,
            timestamp: self.timestamp,
        }
    }
}

impl Clone for GpuError {
    fn clone(&self) -> (copy: Self)
        ensures
            copy == *self,
    {
        GpuError {
            code: self.code,
            message: self.message.clone(),
            technical_details: clone_text(&self.technical_details),
            device_id: self.device_id,
            timestamp: self.timestamp,
        }
    }
}

impl GpuError {
    /// An error of the given code that arose at the given time, without
    /// details or device.
    pub fn new_at(code: GpuErrorCode, message: &str, timestamp: Timestamp) -> (error: Self)
        ensures
            error@ == (GpuErrorView {
                code,
                message: message@,
                technical_details: None,
                device_id: None,
                timestamp,
            }),
    {
        GpuError {
            code,
            message: String::from_str(message),
            technical_details: None,
            device_id: None,
            timestamp,
        }
    }

    /// An error of the given code that arises now, without details or
    /// device.
    pub fn new(code: GpuErrorCode, message: &str) -> (error: Self)
        ensures
            error@.code == code,
            error@.message == message@,
            error@.technical_details is None,
            error@.device_id is None,
    {
        Self::new_at(code, message, current_time())
    }

    /// The error with technical details.
    pub fn with_details(self, details: &str) -> (error: Self)
        ensures
            error@ == (GpuErrorView { technical_details: Some(details@), ..self@ }),
    {
        let mut error = self;
        error.technical_details = Some(String::from_str(details));
        error
    }

    /// The error with the device it arose on.
    pub fn with_device_id(self, device_id: i32) -> (error: Self)
        ensures
            error@ == (GpuErrorView { device_id: Some(device_id), ..self@ }),
    {
        let mut error = self;
        error.device_id = Some(device_id);
        error
    }

    /// An error that arises now, with the code its message is classified
    /// as.
    pub fn from_message(message: &str) -> (error: Self)
        ensures
            error@.code == GpuErrorCode::from_error_message_spec(message@),
            error@.message == message@,
            error@.technical_details is None,
            error@.device_id is None,
    {
        let code = GpuErrorCode::from_error_message(message);
        Self::new(code, message)
    }

    /// What a user is shown of the error: identifier, title, message,
    /// remediation, link, and whether the CPU can take over. Title,
    /// identifier and remediation are never empty.
    pub fn to_user_response(&self) -> (response: GpuErrorResponse)
        ensures
            response@ == self@.user_response(),
            response@.code.len() > 0,
            response@.title.len() > 0,
            response@.suggestion.len() > 0,
    {
        let doc_link = match self.code.doc_link() {
            Some(url) => Some(String::from_str(url)),
            None => None,
        };
        GpuErrorResponse {
            code: String::from_str(self.code.code()),
            title: String::from_str(self.code.description()),
            message: self.message.clone(),
            suggestion: String::from_str(self.code.suggestion()),
            doc_link,
            can_fallback: self.can_fallback_to_cpu(),
        }
    }

    /// Whether retrying on the CPU makes sense: for every code but
    /// `ModelLoadFailed`.
    pub fn can_fallback_to_cpu(&self) -> (possible: bool)
        ensures
            possible == self@.code.can_fallback_spec(),
            possible <==> self.code != GpuErrorCode::ModelLoadFailed,
    {
        match self.code {
            GpuErrorCode::ModelLoadFailed => false,
            _ => true,
        }
    }

    /// Writes the error as `[<identifier>] <description>: <message>`.
    pub fn to_string(&self) -> (text: String)
        ensures
            text@ == self@.text(),
    {
        let mut text = self.code.to_string();
        text.append(": ");
        text.append(self.message.as_str());
        text
    }
}

} // verus!
