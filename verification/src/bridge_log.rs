//! What the planner bridge's live log stream does with each frame it receives.

use vstd::prelude::*;
use vstd::utf8::{decode_utf8, valid_utf8};
use crate::text::concat_str;

verus! {

/// `std::string::FromUtf8Error`, the error of a failed UTF-8 conversion.
#[verifier::external_type_specification]
#[verifier::external_body]
pub struct ExFromUtf8Error(std::string::FromUtf8Error);

/// `String::from_utf8` succeeds exactly on valid UTF-8 and then holds the decoded characters.
pub assume_specification[ String::from_utf8 ](vec: Vec<u8>) -> (r: Result<String, std::string::FromUtf8Error>)
    ensures
        r is Ok <==> valid_utf8(vec@),
        r matches Ok(s) ==> s@ == decode_utf8(vec@),
;

/// A frame of the log stream, or a failure to read one.
#[derive(Debug)]
pub enum LogFrame {
    Text(String),
    Binary(Vec<u8>),
    Close,
    Error(String),
    Other,
}

/// What to do with a frame.
#[derive(Debug)]
pub enum LogStep {
    /// Pass the line on and keep reading; stop when nobody receives lines any more.
    Forward(String),
    /// Ignore the frame and keep reading.
    Skip,
    /// Pass the notice on if possible, then reconnect.
    Closed(String),
    /// Pass the notice on, then reconnect; stop when nobody receives lines any more.
    Failed(String),
}

/// The step for a frame: text is passed on, binary data too when it is valid UTF-8, a
/// closing frame or a read failure ends the connection with a notice.
pub open spec fn frame_step_ok(frame: LogFrame, step: LogStep) -> bool {
    match frame {
        LogFrame::Text(t) => step matches LogStep::Forward(l) && l@ == t@,
        LogFrame::Binary(b) => if valid_utf8(b@) {
            step matches LogStep::Forward(l) && l@ == decode_utf8(b@)
        } else {
            step is Skip
        },
        LogFrame::Close => step matches LogStep::Closed(n) && n@ == "[ws] bridge 日志连接已关闭，准备重连"@,
        LogFrame::Error(e) => step matches LogStep::Failed(n) && n@ == "[ws] bridge 日志流错误: "@ + e@,
        LogFrame::Other => step is Skip,
    }
}

/// Decides what to do with one frame of the log stream.
pub fn log_frame_step(frame: LogFrame) -> (step: LogStep)
    ensures
        frame_step_ok(frame, step),
{
    match frame {
        LogFrame::Text(t) => LogStep::Forward(t),
        LogFrame::Binary(b) => match String::from_utf8(b) {
            Ok(text) => LogStep::Forward(text),
            Err(_) => LogStep::Skip,
        },
        LogFrame::Close => LogStep::Closed(String::from_str("[ws] bridge 日志连接已关闭，准备重连")),
        LogFrame::Error(e) => LogStep::Failed(concat_str("[ws] bridge 日志流错误: ", e.as_str())),
        LogFrame::Other => LogStep::Skip,
    }
}

/// The line announcing a new connection to the log stream.
pub fn connected_notice() -> (s: String)
    ensures
        s@ == "[ws] 已连接 bridge 实时日志"@,
{
    String::from_str("[ws] 已连接 bridge 实时日志")
}

/// The line reporting a failed connection attempt.
pub fn connect_failed_notice(error: &str) -> (s: String)
    ensures
        s@ == "[ws] 连接 bridge 日志失败: "@ + error@,
{
    concat_str("[ws] 连接 bridge 日志失败: ", error)
}

} // verus!
