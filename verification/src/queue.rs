//! Background tasks: what a task does and the states it goes through.

use crate::text::chars::push_chars;
use crate::text::number::{decimal, decimal_spec};
use vstd::prelude::*;

verus! {

/// Why a queue operation was refused.
#[derive(Debug)]
pub enum QueueError {
    /// No task has the given identifier.
    TaskNotFound(String),
    /// The task's state does not allow the operation.
    InvalidStateTransition(String),
    QueueFull,
}

impl QueueError {
    /// The message of an error.
    pub open spec fn text(self) -> Seq<char> {
        match self {
            QueueError::TaskNotFound(id) => "任务不存在: "@ + id@,
            QueueError::InvalidStateTransition(detail) => "无效的状态转换: "@ + detail@,
            QueueError::QueueFull => "队列已满"@,
        }
    }

    /// Writes the message of the error.
    pub fn to_string(&self) -> (text: String)
        ensures
            text@ == self.text(),
    {
        match self {
            QueueError::TaskNotFound(id) => {
                let mut text = String::from_str("任务不存在: ");
                text.append(id.as_str());
                text
            },
            QueueError::InvalidStateTransition(detail) => {
                let mut text = String::from_str("无效的状态转换: ");
                text.append(detail.as_str());
                text
            },
            QueueError::QueueFull => String::from_str("队列已满"),
        }
    }
}

/// What a task does.
#[derive(Debug)]
pub enum TaskType {
    VideoTranscription { video_path: String, video_name: String },
    LinkParsing { links: Vec<String> },
    VideoDownload { url: String, output_path: String, video_name: String },
    AiAnalysis { content: String, video_id: String },
}

impl TaskType {
    /// The line that describes a task to the user.
    pub open spec fn description_spec(self) -> Seq<char> {
        match self {
            TaskType::VideoTranscription { video_path, video_name } => "转写视频: "@ + video_name@,
            TaskType::LinkParsing { links } => "解析链接: "@ + decimal_spec(links@.len()) + " 个"@,
            TaskType::VideoDownload { url, output_path, video_name } => "下载视频: "@ + video_name@,
            TaskType::AiAnalysis { content, video_id } => "AI 分析"@,
        }
    }

    /// Describes the task in one line: what is done, and to which video
    /// or to how many links.
    pub fn description(&self) -> (text: String)
        ensures
            text@ == self.description_spec(),
    {
        match self {
            TaskType::VideoTranscription { video_name, .. } => {
                let mut text = String::from_str("转写视频: ");
                text.append(video_name.as_str());
                text
            },
            TaskType::LinkParsing { links } => {
                let mut text = String::from_str("解析链接: ");
                let count = decimal(links.len() as u64);
                push_chars(&mut text, &count);
                text.append(" 个");
                text
            },
            TaskType::VideoDownload { video_name, .. } => {
                let mut text = String::from_str("下载视频: ");
                text.append(video_name.as_str());
                text
            },
            TaskType::AiAnalysis { .. } => String::from_str("AI 分析"),
        }
    }
}

/// The state of a task.
#[derive(Debug)]
pub enum TaskStatus {
    Pending,
    Running,
    Paused,
    Completed,
    /// Failed, with the error.
    Failed(String),
    Cancelled,
}

impl Clone for TaskStatus {
    fn clone(&self) -> (copy: Self)
        ensures
            copy == *self,
    {
        match self {
            TaskStatus::Pending => TaskStatus::Pending,
            TaskStatus::Running => TaskStatus::Running,
            TaskStatus::Paused => TaskStatus::Paused,
            TaskStatus::Completed => TaskStatus::Completed,
            TaskStatus::Failed(error) => TaskStatus::Failed(error.clone()),
            TaskStatus::Cancelled => TaskStatus::Cancelled,
        }
    }
}

impl TaskStatus {
    /// The task has ended: completed, failed or cancelled.
    pub open spec fn is_terminal_spec(&self) -> bool {
        *self is Completed || *self is Failed || *self is Cancelled
    }

    /// Only a running task can be paused.
    pub open spec fn can_pause_spec(&self) -> bool {
        *self is Running
    }

    /// Only a paused task can be resumed.
    pub open spec fn can_resume_spec(&self) -> bool {
        *self is Paused
    }

    /// A task can be cancelled until it has ended.
    pub open spec fn can_cancel_spec(&self) -> bool {
        !self.is_terminal_spec()
    }

    #[verifier::when_used_as_spec(is_terminal_spec)]
    pub fn is_terminal(&self) -> (terminal: bool)
        ensures
            terminal == self.is_terminal_spec(),
    {
        match self {
            TaskStatus::Completed | TaskStatus::Failed(_) | TaskStatus::Cancelled => true,
            _ => false,
        }
    }

    #[verifier::when_used_as_spec(can_pause_spec)]
    pub fn can_pause(&self) -> (allowed: bool)
        ensures
            allowed == self.can_pause_spec(),
    {
        match self {
            TaskStatus::Running => true,
            _ => false,
        }
    }

    #[verifier::when_used_as_spec(can_resume_spec)]
    pub fn can_resume(&self) -> (allowed: bool)
        ensures
            allowed == self.can_resume_spec(),
    {
        match self {
            TaskStatus::Paused => true,
            _ => false,
        }
    }

    #[verifier::when_used_as_spec(can_cancel_spec)]
    pub fn can_cancel(&self) -> (allowed: bool)
        ensures
            allowed == self.can_cancel_spec(),
    {
        !self.is_terminal()
    }
}

/// A task that has ended allows no operation, and no state allows both
/// pausing and resuming.
pub proof fn law_task_states(status: TaskStatus)
    ensures
        status.is_terminal_spec() ==> !status.can_pause_spec() && !status.can_resume_spec()
            && !status.can_cancel_spec(),
        !(status.can_pause_spec() && status.can_resume_spec()),
        status.can_pause_spec() || status.can_resume_spec() ==> status.can_cancel_spec(),
{
}

/// How many tasks of a queue are in each state.
#[derive(Debug, Clone, Copy, PartialEq, Eq, Structural)]
pub struct QueueStats {
    pub pending: usize,
    pub running: usize,
    pub completed: usize,
    pub failed: usize,
    pub cancelled: usize,
    pub total: usize,
}

} // verus!
