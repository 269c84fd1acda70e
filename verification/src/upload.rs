//! Uploads: what the YMODEM sender is told, and what its errors mean.

use crate::text::{join2, join3};
use vstd::prelude::*;

verus! {

/// The settings of the YMODEM sender that depend on the connection's timeout.
#[derive(Clone, Copy, Debug, PartialEq, Eq, Structural)]
pub struct Config {
    pub start_timeout_ms: u32,
    pub transfer_timeout_ms: u32,
    pub start_retries: u32,
}

/// A timeout as the sender takes it: at least a millisecond, and no more than
/// fits.
pub open spec fn sender_timeout(milliseconds: nat) -> u32 {
    if milliseconds == 0 {
        1
    } else if milliseconds > u32::MAX {
        u32::MAX
    } else {
        milliseconds as u32
    }
}

/// The sender's settings for a timeout in milliseconds: one wait of that
/// length for the transfer to start, and the same for each answer.
pub fn config_from_timeout(milliseconds: u128) -> (config: Config)
    ensures
        config.start_timeout_ms == sender_timeout(milliseconds as nat),
        config.transfer_timeout_ms == sender_timeout(milliseconds as nat),
        config.start_retries == 1,
{
    let timeout: u32 = if milliseconds == 0 {
        1
    } else if milliseconds > u32::MAX as u128 {
        u32::MAX
    } else {
        milliseconds as u32
    };
    Config { start_timeout_ms: timeout, transfer_timeout_ms: timeout, start_retries: 1 }
}

/// Why a transfer failed.
pub enum SendError {
    Io(String),
    Timeout,
    Cancelled,
    Protocol,
    InvalidFilename,
    HeaderTooLong,
    UnexpectedEof,
    InvalidSourceRead,
    Source(String),
    Observer(String),
}

/// What the user is told of a failed transfer.
pub open spec fn error_text(error: SendError) -> Seq<char> {
    match error {
        SendError::Io(error) => error@,
        SendError::Timeout => "YMODEM transfer timed out"@,
        SendError::Cancelled => "device cancelled YMODEM transfer"@,
        SendError::Protocol => "unexpected YMODEM protocol response"@,
        SendError::InvalidFilename => "YMODEM filename is empty or contains NUL"@,
        SendError::HeaderTooLong => "YMODEM filename is too long for block 0"@,
        SendError::UnexpectedEof => "upload file ended before its advertised size"@,
        SendError::InvalidSourceRead => "upload source returned an invalid read length"@,
        SendError::Source(error) => "read upload file: "@ + error@,
        SendError::Observer(error) => error@,
    }
}

/// What the user is told of a failed transfer.
pub fn format_send_error(error: SendError) -> (text: String)
    ensures
        text@ == error_text(error),
{
    match error {
        SendError::Io(error) => error,
        SendError::Timeout => "YMODEM transfer timed out".to_owned(),
        SendError::Cancelled => "device cancelled YMODEM transfer".to_owned(),
        SendError::Protocol => "unexpected YMODEM protocol response".to_owned(),
        SendError::InvalidFilename => "YMODEM filename is empty or contains NUL".to_owned(),
        SendError::HeaderTooLong => "YMODEM filename is too long for block 0".to_owned(),
        SendError::UnexpectedEof => "upload file ended before its advertised size".to_owned(),
        SendError::InvalidSourceRead => "upload source returned an invalid read length".to_owned(),
        SendError::Source(error) => join2("read upload file: ", error.as_str()),
        SendError::Observer(error) => error,
    }
}

/// What is done with a file before a transfer.
pub enum FileStep {
    Open,
    Stat,
}

/// What the user is told of a file that cannot be sent.
pub fn file_error(step: FileStep, path: &str, error: &str) -> (text: String)
    ensures
        text@ == (match step {
            FileStep::Open => "open "@,
            FileStep::Stat => "stat "@,
        }) + path@ + ": "@ + error@,
{
    let verb = match step {
        FileStep::Open => "open ",
        FileStep::Stat => "stat ",
    };
    let mut text = join3(verb, path, ": ");
    text.append(error);
    text
}

/// The name under which an upload's progress is shown.
pub open spec fn shown_name(file_name: Option<String>) -> Seq<char> {
    match file_name {
        Some(name) => name@,
        None => "upload.bin"@,
    }
}

/// The name under which an upload's progress is shown.
pub fn transfer_name(file_name: Option<String>) -> (name: String)
    ensures
        name@ == shown_name(file_name),
{
    match file_name {
        Some(name) => name,
        None => "upload.bin".to_owned(),
    }
}

/// What the sender announces of a file.
pub struct Metadata {
    pub filename: String,
    pub file_size: usize,
}

/// What comes of a file of the given name and size: what the sender announces,
/// or why it cannot be sent. `path` is how the file's path is shown.
pub open spec fn announces(
    path: Seq<char>,
    file_name: Option<String>,
    file_size: u64,
    result: Result<Metadata, String>,
) -> bool {
    if file_size > usize::MAX {
        result matches Err(error) && error@ == path + " is too large for this platform"@
    } else {
        &&& result matches Ok(metadata)
        &&& metadata.file_size == file_size
        &&& metadata.filename@ == (match file_name {
            Some(name) => if name@.len() == 0 {
                "upload.bin"@
            } else {
                name@
            },
            None => "upload.bin"@,
        })
    }
}

/// What the sender announces of a file: its name, or a stand-in where it has
/// none that can be sent, and its size, which must fit this platform. `path`
/// is how the file's path is shown.
pub fn upload_metadata(path: &str, file_name: Option<String>, file_size: u64) -> (result: Result<
    Metadata,
    String,
>)
    ensures
        announces(path@, file_name, file_size, result),
{
    if file_size > usize::MAX as u64 {
        return Err(join2(path, " is too large for this platform"));
    }
    let filename = match file_name {
        Some(name) => if name.as_str().is_empty() {
            "upload.bin".to_owned()
        } else {
            name
        },
        None => "upload.bin".to_owned(),
    };
    Ok(Metadata { filename, file_size: file_size as usize })
}

/// A file that fits is announced with its own size, whatever that is, and its
/// own name, wherever it has one that is not empty; the name that is announced
/// is never empty. One that does not fit is not announced.
pub proof fn law_files_are_announced_as_they_are(
    path: Seq<char>,
    file_name: Option<String>,
    file_size: u64,
    result: Result<Metadata, String>,
)
    requires
        announces(path, file_name, file_size, result),
    ensures
        result is Ok <==> file_size <= usize::MAX,
        result matches Ok(metadata) ==> {
            &&& metadata.file_size == file_size
            &&& metadata.filename@.len() > 0
            &&& file_name matches Some(name) ==> name@.len() > 0 ==> metadata.filename@ == name@
            &&& file_name is None ==> metadata.filename@ == "upload.bin"@
            &&& file_name matches Some(name) ==> name@.len() == 0 ==> metadata.filename@
                == "upload.bin"@
        },
        result matches Err(error) ==> error@ == path + " is too large for this platform"@,
{
    reveal_strlit("upload.bin");
}

/// A file's progress is shown under the name that is announced for it, but for
/// a name that is empty.
pub proof fn law_files_are_shown_as_announced(
    path: Seq<char>,
    file_name: Option<String>,
    file_size: u64,
    metadata: Metadata,
)
    requires
        announces(path, file_name, file_size, Ok(metadata)),
    ensures
        file_name matches Some(name) ==> shown_name(file_name) == name@,
        (file_name matches Some(name) ==> name@.len() > 0) ==> shown_name(file_name)
            == metadata.filename@,
{
}

/// A timeout in whole seconds is taken exactly, as far as it fits, and never
/// becomes nothing.
pub proof fn law_seconds_become_milliseconds(seconds: nat)
    requires
        seconds >= 1,
    ensures
        seconds * 1000 <= u32::MAX ==> sender_timeout(seconds * 1000) == seconds * 1000,
        seconds * 1000 > u32::MAX ==> sender_timeout(seconds * 1000) == u32::MAX,
        sender_timeout(seconds * 1000) >= 1,
{
}

/// A timeout is taken to the millisecond: no two that fit are confused, none
/// and one millisecond are the same wait, and only one that does not fit is cut
/// short, to the longest that does.
pub proof fn law_timeouts_are_exact(milliseconds: nat)
    ensures
        1 <= milliseconds <= 0xffff_ffff ==> sender_timeout(milliseconds) == milliseconds,
        milliseconds == 0 ==> sender_timeout(milliseconds) == 1,
        milliseconds > 0xffff_ffff ==> sender_timeout(milliseconds) == 0xffff_ffff,
{
}

/// What the connection, the file and the screen reported is passed on to the
/// user as it is, a file's error with what was done; every other failure has a
/// text of its own.
pub proof fn law_reported_errors_are_passed_on(error: SendError)
    ensures
        match error {
            SendError::Io(text) => error_text(error) == text@,
            SendError::Observer(text) => error_text(error) == text@,
            SendError::Source(text) => error_text(error) == "read upload file: "@ + text@,
            SendError::Timeout => error_text(error) == "YMODEM transfer timed out"@,
            SendError::Cancelled => error_text(error) == "device cancelled YMODEM transfer"@,
            SendError::Protocol => error_text(error) == "unexpected YMODEM protocol response"@,
            SendError::InvalidFilename => error_text(error)
                == "YMODEM filename is empty or contains NUL"@,
            SendError::HeaderTooLong => error_text(error)
                == "YMODEM filename is too long for block 0"@,
            SendError::UnexpectedEof => error_text(error)
                == "upload file ended before its advertised size"@,
            SendError::InvalidSourceRead => error_text(error)
                == "upload source returned an invalid read length"@,
        },
{
}

/// A longer timeout never makes the sender wait less, and it always waits.
pub proof fn law_timeouts_are_monotone(shorter: nat, longer: nat)
    requires
        shorter <= longer,
    ensures
        1 <= sender_timeout(shorter) <= sender_timeout(longer),
{
}

} // verus!
