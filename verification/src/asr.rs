//! Speech recognition: the models on offer, the errors of the engine and
//! the shape of a transcript.

use crate::text::chars::text_views;
use vstd::prelude::*;

verus! {

/// What went wrong in speech recognition.
#[derive(Debug)]
pub enum AsrError {
    ModelNotFound(String),
    ModelLoadFailed(String),
    AudioProcessingFailed(String),
    TranscriptionFailed(String),
    GpuNotAvailable(String),
    DownloadFailed(String),
    IoError(String),
}

impl AsrError {
    /// What an error's message starts with.
    pub open spec fn label(self) -> Seq<char> {
        match self {
            AsrError::ModelNotFound(_) => "模型文件不存在: "@,
            AsrError::ModelLoadFailed(_) => "模型加载失败: "@,
            AsrError::AudioProcessingFailed(_) => "音频处理失败: "@,
            AsrError::TranscriptionFailed(_) => "转写失败: "@,
            AsrError::GpuNotAvailable(_) => "GPU 不可用: "@,
            AsrError::DownloadFailed(_) => "模型下载失败: "@,
            AsrError::IoError(_) => "IO 错误: "@,
        }
    }

    /// The detail an error carries.
    pub open spec fn detail(self) -> Seq<char> {
        match self {
            AsrError::ModelNotFound(detail) => detail@,
            AsrError::ModelLoadFailed(detail) => detail@,
            AsrError::AudioProcessingFailed(detail) => detail@,
            AsrError::TranscriptionFailed(detail) => detail@,
            AsrError::GpuNotAvailable(detail) => detail@,
            AsrError::DownloadFailed(detail) => detail@,
            AsrError::IoError(detail) => detail@,
        }
    }

    /// Writes the message of the error: what failed, and the detail.
    pub fn to_string(&self) -> (text: String)
        ensures
            text@ == self.label() + self.detail(),
    {
        let (label, detail) = match self {
            AsrError::ModelNotFound(detail) => ("模型文件不存在: ", detail),
            AsrError::ModelLoadFailed(detail) => ("模型加载失败: ", detail),
            AsrError::AudioProcessingFailed(detail) => ("音频处理失败: ", detail),
            AsrError::TranscriptionFailed(detail) => ("转写失败: ", detail),
            AsrError::GpuNotAvailable(detail) => ("GPU 不可用: ", detail),
            AsrError::DownloadFailed(detail) => ("模型下载失败: ", detail),
            AsrError::IoError(detail) => ("IO 错误: ", detail),
        };
        let mut text = String::from_str(label);
        text.append(detail.as_str());
        text
    }
}

/// A model that can be downloaded.
#[derive(Debug)]
pub struct ModelInfo {
    pub name: String,
    pub description: String,
    pub size_mb: u64,
    pub languages: Vec<String>,
    pub download_url: String,
    pub model_dir: String,
    pub is_installed: bool,
}

/// A model, with its texts as character sequences.
pub struct ModelInfoView {
    pub name: Seq<char>,
    pub description: Seq<char>,
    pub size_mb: u64,
    pub languages: Seq<Seq<char>>,
    pub download_url: Seq<char>,
    pub model_dir: Seq<char>,
    pub is_installed: bool,
}

impl View for ModelInfo {
    type V = ModelInfoView;

    open spec fn view(&self) -> ModelInfoView {
        ModelInfoView {
            name: self.name@,
            description: self.description@,
            size_mb: self.size_mb,
            languages: text_views(self.languages@),
            download_url: self.download_url@,
            model_dir: self.model_dir@,
            is_installed: self.is_installed,
        }
    }
}

impl ModelInfo {
    /// The SenseVoice speech model.
    pub open spec fn sense_voice_spec() -> ModelInfoView {
        ModelInfoView {
            name: "SenseVoice Small"@,
            description: "阿里通义实验室，支持中/英/日/韩/粤语，支持 GPU 加速"@,
            size_mb: 900,
            languages: seq!["中文"@, "英语"@, "日语"@, "韩语"@, "粤语"@],
            download_url: "https://hf-mirror.com/csukuangfj/sherpa-onnx-sense-voice-zh-en-ja-ko-yue-2024-07-17/resolve/main"@,
            model_dir: "sense-voice"@,
            is_installed: false,
        }
    }

    /// The BGE embedding model for Chinese.
    pub open spec fn bge_small_zh_spec() -> ModelInfoView {
        ModelInfoView {
            name: "BGE-small-zh-v1.5"@,
            description: "智源研究院，中文语义嵌入模型，用于知识库搜索"@,
            size_mb: 90,
            languages: seq!["中文"@],
            download_url: "https://hf-mirror.com/Xenova/bge-small-zh-v1.5/resolve/main/onnx"@,
            model_dir: "bge-small-zh"@,
            is_installed: false,
        }
    }

    /// The SenseVoice speech model, in the version that runs on the GPU,
    /// not yet installed.
    pub fn sense_voice() -> (info: Self)
        ensures
            info@ == Self::sense_voice_spec(),
    {
        let mut languages: Vec<String> = Vec::new();
        languages.push(String::from_str("中文"));
        languages.push(String::from_str("英语"));
        languages.push(String::from_str("日语"));
        languages.push(String::from_str("韩语"));
        languages.push(String::from_str("粤语"));
        assert(text_views(languages@) =~= seq!["中文"@, "英语"@, "日语"@, "韩语"@, "粤语"@]);
        ModelInfo {
            name: String::from_str("SenseVoice Small"),
            description: String::from_str("阿里通义实验室，支持中/英/日/韩/粤语，支持 GPU 加速"),
            size_mb: 900,
            languages,
            download_url: String::from_str(
                "https://hf-mirror.com/csukuangfj/sherpa-onnx-sense-voice-zh-en-ja-ko-yue-2024-07-17/resolve/main",
            ),
            model_dir: String::from_str("sense-voice"),
            is_installed: false,
        }
    }

    /// The BGE embedding model for Chinese, not yet installed.
    pub fn bge_small_zh() -> (info: Self)
        ensures
            info@ == Self::bge_small_zh_spec(),
    {
        let mut languages: Vec<String> = Vec::new();
        languages.push(String::from_str("中文"));
        assert(text_views(languages@) =~= seq!["中文"@]);
        ModelInfo {
            name: String::from_str("BGE-small-zh-v1.5"),
            description: String::from_str("智源研究院，中文语义嵌入模型，用于知识库搜索"),
            size_mb: 90,
            languages,
            download_url: String::from_str(
                "https://hf-mirror.com/Xenova/bge-small-zh-v1.5/resolve/main/onnx",
            ),
            model_dir: String::from_str("bge-small-zh"),
            is_installed: false,
        }
    }
}

/// One timed piece of a transcript.
#[derive(Debug)]
pub struct Segment {
    pub start_ms: u64,
    pub end_ms: u64,
    pub text: String,
}

impl Clone for Segment {
    fn clone(&self) -> (copy: Self)
        ensures
            copy == *self,
    {
        Segment { start_ms: self.start_ms, end_ms: self.end_ms, text: self.text.clone() }
    }
}

/// A transcript.
#[derive(Debug)]
pub struct TranscriptionResult {
    pub text: String,
    pub segments: Vec<Segment>,
    pub duration_ms: u64,
    pub language: Option<String>,
    pub emotion: Option<String>,
}

} // verus!
