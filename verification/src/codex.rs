//! The chat relay: one instruction in, the executor's output back.
//!
//! Running the executor is the caller's part. What is decided here is where
//! it runs and how its result is worded.

use crate::text::join;
use vstd::prelude::*;

verus! {

/// Where the executor runs when nothing else is known.
pub const FALLBACK_DIR: &'static str = "/tmp";

/// An instruction for the executor.
#[derive(Clone, Debug, PartialEq, Eq)]
pub struct CodexChatRequest {
    pub message: String,
    /// The directory to run in, where the sender names one.
    pub project_path: Option<String>,
}

/// What the executor made of an instruction.
#[derive(Clone, Debug, PartialEq, Eq)]
pub struct CodexChatResponse {
    pub response: String,
    pub success: bool,
}

/// A response, by its text.
pub struct ChatResponseView {
    pub response: Seq<char>,
    pub success: bool,
}

impl View for CodexChatResponse {
    type V = ChatResponseView;

    open spec fn view(&self) -> ChatResponseView {
        ChatResponseView { response: self.response@, success: self.success }
    }
}

/// The directory to run in: the one that the request names, else the
/// process's own if it is known, else the fallback.
pub open spec fn working_dir_of(
    project_path: Option<Seq<char>>,
    current_dir: Option<Seq<char>>,
) -> Seq<char> {
    match project_path {
        Some(path) => path,
        None => match current_dir {
            Some(dir) => dir,
            None => FALLBACK_DIR@,
        },
    }
}

/// What is reported when the executor failed.
pub open spec fn chat_failure_text(cause: Seq<char>) -> Seq<char> {
    "Failed to execute Codex: "@ + cause
}

/// How a chat ends: with the output as a successful response, or with the
/// report of the executor's failure.
pub open spec fn chat_of(executed: Result<Seq<char>, Seq<char>>) -> Result<
    ChatResponseView,
    Seq<char>,
> {
    match executed {
        Ok(output) => Ok(ChatResponseView { response: output, success: true }),
        Err(cause) => Err(chat_failure_text(cause)),
    }
}

/// The view of how a chat ended.
pub open spec fn chat_view(r: Result<CodexChatResponse, String>) -> Result<
    ChatResponseView,
    Seq<char>,
> {
    match r {
        Ok(response) => Ok(response@),
        Err(text) => Err(text@),
    }
}

impl CodexChatRequest {
    /// Picks the directory in which the executor runs. `current_dir` is the
    /// process's working directory, where the caller could find it out.
    pub fn working_dir(&self, current_dir: Option<String>) -> (dir: String)
        ensures
            dir@ == working_dir_of(self.project_path.deep_view(), current_dir.deep_view()),
    {
        match &self.project_path {
            Some(path) => path.clone(),
            None => match current_dir {
                Some(dir) => dir,
                None => FALLBACK_DIR.to_owned(),
            },
        }
    }
}

/// Words the result of running the executor: its output on success, the
/// executor's complaint on failure.
pub fn chat_outcome(executed: Result<String, String>) -> (r: Result<CodexChatResponse, String>)
    ensures
        chat_view(r) == chat_of(
            match executed {
                Ok(output) => Ok(output@),
                Err(cause) => Err(cause@),
            },
        ),
{
    match executed {
        Ok(output) => Ok(CodexChatResponse { response: output, success: true }),
        Err(cause) => Err(join("Failed to execute Codex: ", cause.as_str())),
    }
}

} // verus!
