//! Media files: the formats that are accepted, durations as FFmpeg
//! prints them, and the audio format that speech recognition needs.

use crate::text::case::{lowercase_spec, to_lowercase};
use crate::text::chars::chars_of;
use crate::text::number::{parse_unsigned, parse_unsigned_spec};
use crate::text::split::{split, split_spec, views};
use vstd::prelude::*;

verus! {

/// What went wrong with FFmpeg.
#[derive(Debug)]
pub enum FfmpegError {
    NotAvailable,
    FfprobeNotAvailable,
    ExecutionFailed(String),
    ParseFailed(String),
    FileNotFound(String),
    UnsupportedFormat(String),
}

impl FfmpegError {
    /// The message of an error.
    pub open spec fn text(self) -> Seq<char> {
        match self {
            FfmpegError::NotAvailable => "FFmpeg 不可用: 请确保 FFmpeg 已安装或位于 tools 目录"@,
            FfmpegError::FfprobeNotAvailable => "FFprobe 不可用"@,
            FfmpegError::ExecutionFailed(detail) => "命令执行失败: "@ + detail@,
            FfmpegError::ParseFailed(detail) => "输出解析失败: "@ + detail@,
            FfmpegError::FileNotFound(detail) => "文件不存在: "@ + detail@,
            FfmpegError::UnsupportedFormat(detail) => "不支持的格式: "@ + detail@,
        }
    }

    /// Writes the message of the error.
    pub fn to_string(&self) -> (text: String)
        ensures
            text@ == self.text(),
    {
        match self {
            FfmpegError::NotAvailable => String::from_str(
                "FFmpeg 不可用: 请确保 FFmpeg 已安装或位于 tools 目录",
            ),
            FfmpegError::FfprobeNotAvailable => String::from_str("FFprobe 不可用"),
            FfmpegError::ExecutionFailed(detail) => {
                let mut text = String::from_str("命令执行失败: ");
                text.append(detail.as_str());
                text
            },
            FfmpegError::ParseFailed(detail) => {
                let mut text = String::from_str("输出解析失败: ");
                text.append(detail.as_str());
                text
            },
            FfmpegError::FileNotFound(detail) => {
                let mut text = String::from_str("文件不存在: ");
                text.append(detail.as_str());
                text
            },
            FfmpegError::UnsupportedFormat(detail) => {
                let mut text = String::from_str("不支持的格式: ");
                text.append(detail.as_str());
                text
            },
        }
    }
}

/// What is known of an audio stream.
#[derive(Debug)]
pub struct AudioMetadata {
    pub duration_ms: u64,
    pub sample_rate: u32,
    pub channels: u32,
    pub codec: String,
    pub bitrate: Option<u64>,
}

impl Clone for AudioMetadata {
    fn clone(&self) -> (copy: Self)
        ensures
            copy == *self,
    {
        AudioMetadata {
            duration_ms: self.duration_ms,
            sample_rate: self.sample_rate,
            channels: self.channels,
            codec: self.codec.clone(),
            bitrate: self.bitrate,
        }
    }
}

/// The number a text writes, or zero where it writes none that fits 64
/// bits.
pub open spec fn number_or_zero(text: Seq<char>) -> nat {
    match parse_unsigned_spec(text, u64::MAX as nat) {
        Some(n) => n,
        None => 0,
    }
}

/// The milliseconds that the digits after the decimal point stand for:
/// one digit counts tenths, two digits count hundredths, and anything
/// else counts milliseconds.
pub open spec fn fraction_ms(fraction: Seq<char>) -> nat {
    if fraction.len() == 1 {
        number_or_zero(fraction) * 100
    } else if fraction.len() == 2 {
        number_or_zero(fraction) * 10
    } else {
        number_or_zero(fraction)
    }
}

/// The milliseconds of a seconds field `SS` or `SS.fraction`.
pub open spec fn seconds_ms(field: Seq<char>) -> nat {
    let parts = split_spec(field, '.');
    number_or_zero(parts[0]) * 1000 + if parts.len() > 1 {
        fraction_ms(parts[1])
    } else {
        0
    }
}

/// The milliseconds of a duration `HH:MM:SS.fraction`; nothing where the
/// text does not have three fields between colons. A field that is no
/// number counts as zero.
pub open spec fn duration_ms_spec(text: Seq<char>) -> Option<nat> {
    let parts = split_spec(text, ':');
    if parts.len() != 3 {
        None
    } else {
        Some(
            number_or_zero(parts[0]) * 3600000 + number_or_zero(parts[1]) * 60000 + seconds_ms(
                parts[2],
            ),
        )
    }
}

/// The video formats that are accepted, as file extensions.
pub open spec fn is_supported_extension_spec(lower: Seq<char>) -> bool {
    ||| lower == "mp4"@
    ||| lower == "mov"@
    ||| lower == "avi"@
    ||| lower == "mkv"@
    ||| lower == "webm"@
}

/// Whether a file with this extension, or without any, is an accepted
/// video: the extension, whatever the case of its letters, is one of
/// `mp4`, `mov`, `avi`, `mkv` and `webm`.
pub open spec fn is_supported_video_spec(extension: Option<Seq<char>>) -> bool {
    match extension {
        Some(extension) => is_supported_extension_spec(lowercase_spec(extension)),
        None => false,
    }
}

/// The audio format that speech recognition needs: 16 kHz, one channel.
pub open spec fn is_asr_format_spec(sample_rate: u32, channels: u32) -> bool {
    sample_rate == 16000 && channels == 1
}

fn number(text: &Vec<char>) -> (value: u64)
    ensures
        value == number_or_zero(text@),
{
    match parse_unsigned(text, u64::MAX) {
        Some(n) => n,
        None => 0,
    }
}

/// `Path::extension`, read as text: the extension of the path's file
/// name, if it has one that is valid Unicode. Nothing is claimed of the
/// result, which follows the platform's rules for paths.
#[verifier::external_body]
fn path_extension(path: &str) -> (extension: Option<String>) {
    std::path::Path::new(path).extension().and_then(|extension| extension.to_str()).map(
        |extension| extension.to_string(),
    )
}

/// The paths of the FFmpeg tools.
pub struct FfmpegWrapper {
    ffmpeg_path: String,
    ffprobe_path: String,
}

impl FfmpegWrapper {
    pub closed spec fn ffmpeg_path_spec(&self) -> Seq<char> {
        self.ffmpeg_path@
    }

    pub closed spec fn ffprobe_path_spec(&self) -> Seq<char> {
        self.ffprobe_path@
    }

    /// A wrapper for the tools at the given paths.
    pub fn from_paths(ffmpeg_path: String, ffprobe_path: String) -> (wrapper: Self)
        ensures
            wrapper.ffmpeg_path_spec() == ffmpeg_path@,
            wrapper.ffprobe_path_spec() == ffprobe_path@,
    {
        FfmpegWrapper { ffmpeg_path, ffprobe_path }
    }

    pub fn ffmpeg_path(&self) -> (path: &str)
        ensures
            path@ == self.ffmpeg_path_spec(),
    {
        self.ffmpeg_path.as_str()
    }

    pub fn ffprobe_path(&self) -> (path: &str)
        ensures
            path@ == self.ffprobe_path_spec(),
    {
        self.ffprobe_path.as_str()
    }

    /// Parses a duration `HH:MM:SS.fraction` into milliseconds. The text
    /// must have three fields between colons; a field that is no number
    /// counts as zero. A duration beyond 64 bits of milliseconds is
    /// refused.
    pub fn parse_duration(duration_str: &str) -> (outcome: Result<u64, FfmpegError>)
        ensures
            match outcome {
                Ok(ms) => duration_ms_spec(duration_str@) == Some(ms as nat),
                Err(error) => {
                    &&& duration_ms_spec(duration_str@) matches Some(ms) ==> ms > u64::MAX
                    &&& error is ParseFailed
                },
            },
    {
        let text = chars_of(duration_str);
        let parts = split(&text, ':');
        if parts.len() != 3 {
            let mut message = String::from_str("时长格式错误: ");
            message.append(duration_str);
            return Err(FfmpegError::ParseFailed(message));
        }
        let hours: u64 = number(&parts[0]);
        let minutes: u64 = number(&parts[1]);
        let seconds_parts = split(&parts[2], '.');
        assert(views(seconds_parts@)[0] == seconds_parts@[0]@);
        let seconds: u64 = number(&seconds_parts[0]);
        let ms: u64 = if seconds_parts.len() > 1 {
            assert(views(seconds_parts@)[1] == seconds_parts@[1]@);
            let fraction = &seconds_parts[1];
            let value: u64 = number(fraction);
            let wide: u128 = if fraction.len() == 1 {
                value as u128 * 100
            } else if fraction.len() == 2 {
                value as u128 * 10
            } else {
                value as u128
            };
            if wide > u64::MAX as u128 {
                let mut message = String::from_str("时长超出范围: ");
                message.append(duration_str);
                return Err(FfmpegError::ParseFailed(message));
            }
            wide as u64
        } else {
            0
        };
        let total: u128 = hours as u128 * 3600000 + minutes as u128 * 60000 + seconds as u128
            * 1000 + ms as u128;
        if total > u64::MAX as u128 {
            let mut message = String::from_str("时长超出范围: ");
            message.append(duration_str);
            return Err(FfmpegError::ParseFailed(message));
        }
        Ok(total as u64)
    }

    /// Whether a file extension names an accepted video format.
    pub fn is_supported_video_extension(extension: Option<&str>) -> (supported: bool)
        ensures
            supported == is_supported_video_spec(
                match extension {
                    Some(extension) => Some(extension@),
                    None => None,
                },
            ),
    {
        match extension {
            Some(extension) => {
                let lower = to_lowercase(extension);
                let mp4 = String::from_str("mp4");
                let mov = String::from_str("mov");
                let avi = String::from_str("avi");
                let mkv = String::from_str("mkv");
                let webm = String::from_str("webm");
                lower == mp4 || lower == mov || lower == avi || lower == mkv || lower == webm
            },
            None => false,
        }
    }

    /// Whether the file at a path is an accepted video, by the extension
    /// that the platform reads from the path.
    pub fn is_supported_video_format(path: &str) -> (supported: bool)
        ensures
            exists|extension: Option<Seq<char>>|
                supported == #[trigger] is_supported_video_spec(extension),
    {
        let extension = path_extension(path);
        let supported = match &extension {
            Some(extension) => Self::is_supported_video_extension(Some(extension.as_str())),
            None => Self::is_supported_video_extension(None),
        };
        assert(supported == is_supported_video_spec(extension.deep_view()));
        supported
    }

    /// Whether audio is in the format that speech recognition needs:
    /// 16 kHz and one channel.
    pub fn is_asr_format(metadata: &AudioMetadata) -> (suitable: bool)
        ensures
            suitable == is_asr_format_spec(metadata.sample_rate, metadata.channels),
    {
        metadata.sample_rate == 16000 && metadata.channels == 1
    }
}

} // verus!
