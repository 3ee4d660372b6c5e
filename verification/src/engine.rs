//! What is asked of the engine and what it answers, as plain values.
//!
//! The library never touches the engine itself. It says which call is to be
//! made, with arguments that are ready to be handed over, and it is told
//! what came back.

use crate::error::{nul_text, MagicError};
use crate::flags::MagicFlags;
use crate::text::{find_nul, first_nul_is_unique, has_nul, join_names, joined, names_bytes, nul_position};
use vstd::prelude::*;
use vstd::slice::slice_to_vec;
use vstd::utf8::encode_utf8;

verus! {

/// What the engine is to do with a list of databases.
#[derive(Clone, Copy, Debug, PartialEq, Eq, Structural)]
pub enum Action {
    /// Attach them to the handle for the queries to come.
    Load,
    /// Check the validity of their entries.
    Check,
    /// Compile each of them into a file beside it.
    Compile,
    /// Print their entries in readable form.
    List,
}

/// One call of the engine.
#[derive(Debug, PartialEq, Eq)]
pub enum Call {
    /// Create an instance with these flags.
    Open { flags: MagicFlags },
    /// Work on the databases named by a colon-separated list without a nul
    /// byte, or on the default database where there is no list.
    Database { action: Action, names: Option<Vec<u8>> },
    /// Attach compiled databases held in memory, in this order.
    Buffers { buffers: Vec<Vec<u8>> },
    /// Put these flags in the place of those in force.
    SetFlags { flags: MagicFlags },
    /// Describe the file at this path, which holds no nul byte.
    File { path: Vec<u8> },
    /// Describe these bytes.
    Buffer { bytes: Vec<u8> },
    /// Give the text of the last error.
    LastError,
    /// Release the instance.
    Close,
}

/// What the engine answered to one call.
#[derive(Debug, PartialEq, Eq)]
pub enum Reply {
    /// An instance was created.
    Opened,
    /// No instance was created; the operating system's error number and its
    /// text for it.
    Refused { code: i32, text: String },
    /// The status that the engine returned.
    Status(i32),
    /// The text that the engine returned, or nothing for a null pointer.
    Text(Option<Vec<u8>>),
    /// The instance is released.
    Released,
}

/// What a finished operation gave.
#[derive(Debug, PartialEq, Eq)]
pub enum Outcome {
    /// The operation was carried out.
    Completed,
    /// The description of what was looked at.
    Description(String),
    /// Whether the engine took the new flags.
    FlagsSet(bool),
}

/// What comes next in an operation: another call of the engine, or the end.
#[derive(Debug, PartialEq, Eq)]
pub enum Step {
    /// Make this call and hand its reply back.
    Ask(Call),
    /// The operation has ended with this result.
    Done(Result<Outcome, MagicError>),
}

/// A call with its byte strings as sequences.
pub enum CallView {
    Open { flags: MagicFlags },
    Database { action: Action, names: Option<Seq<u8>> },
    Buffers { buffers: Seq<Seq<u8>> },
    SetFlags { flags: MagicFlags },
    File { path: Seq<u8> },
    Buffer { bytes: Seq<u8> },
    LastError,
    Close,
}

impl CallView {
    /// Whether the engine can take the call as it is: no nul byte stands in
    /// an argument that is handed over as a nul-terminated string.
    pub open spec fn is_sound(self) -> bool {
        match self {
            CallView::Database { names: Some(list), .. } => !has_nul(list),
            CallView::File { path } => !has_nul(path),
            _ => true,
        }
    }
}

/// A reply with its texts as sequences.
pub enum ReplyView {
    Opened,
    Refused { code: i32, text: Seq<char> },
    Status(i32),
    Text(Option<Seq<u8>>),
    Released,
}

/// An outcome with its text as a sequence.
pub enum OutcomeView {
    Completed,
    Description(Seq<char>),
    FlagsSet(bool),
}

/// A step with its call, outcome or error description as sequences.
pub enum StepView {
    Ask(CallView),
    Done(Result<OutcomeView, Seq<char>>),
}

/// The contents of each buffer, in their order.
pub open spec fn buffers_view(buffers: Seq<Vec<u8>>) -> Seq<Seq<u8>> {
    Seq::new(buffers.len(), |i: int| buffers[i]@)
}

/// The contents of each slice, in their order.
pub open spec fn slices_view(slices: Seq<&[u8]>) -> Seq<Seq<u8>> {
    Seq::new(slices.len(), |i: int| slices[i]@)
}

impl View for Call {
    type V = CallView;

    open spec fn view(&self) -> CallView {
        match *self {
            Call::Open { flags } => CallView::Open { flags },
            Call::Database { action, names } => CallView::Database {
                action,
                names: match names {
                    Some(list) => Some(list@),
                    None => None,
                },
            },
            Call::Buffers { buffers } => CallView::Buffers { buffers: buffers_view(buffers@) },
            Call::SetFlags { flags } => CallView::SetFlags { flags },
            Call::File { path } => CallView::File { path: path@ },
            Call::Buffer { bytes } => CallView::Buffer { bytes: bytes@ },
            Call::LastError => CallView::LastError,
            Call::Close => CallView::Close,
        }
    }
}

impl View for Reply {
    type V = ReplyView;

    open spec fn view(&self) -> ReplyView {
        match *self {
            Reply::Opened => ReplyView::Opened,
            Reply::Refused { code, text } => ReplyView::Refused { code, text: text@ },
            Reply::Status(status) => ReplyView::Status(status),
            Reply::Text(text) => ReplyView::Text(
                match text {
                    Some(bytes) => Some(bytes@),
                    None => None,
                },
            ),
            Reply::Released => ReplyView::Released,
        }
    }
}

impl View for Outcome {
    type V = OutcomeView;

    open spec fn view(&self) -> OutcomeView {
        match *self {
            Outcome::Completed => OutcomeView::Completed,
            Outcome::Description(text) => OutcomeView::Description(text@),
            Outcome::FlagsSet(taken) => OutcomeView::FlagsSet(taken),
        }
    }
}

impl View for Step {
    type V = StepView;

    open spec fn view(&self) -> StepView {
        match *self {
            Step::Ask(call) => StepView::Ask(call@),
            Step::Done(Ok(outcome)) => StepView::Done(Ok(outcome@)),
            Step::Done(Err(e)) => StepView::Done(Err(e@)),
        }
    }
}

/// What `bytes` becomes as a nul-terminated argument: the bytes themselves,
/// or the description of the error where they hold a nul byte.
pub open spec fn argument_of(bytes: Seq<u8>) -> Result<Seq<u8>, Seq<char>> {
    if has_nul(bytes) {
        Err(nul_text(nul_position(bytes) as nat, bytes))
    } else {
        Ok(bytes)
    }
}

/// What a list of database names becomes as an argument: nothing for the
/// empty list, which stands for the default database; else the names joined
/// by colons, or the description of the error where they hold a nul byte.
pub open spec fn database_argument_of(names: Seq<&str>) -> Result<Option<Seq<u8>>, Seq<char>> {
    if names.len() == 0 {
        Ok(None)
    } else {
        match argument_of(joined(names_bytes(names))) {
            Ok(list) => Ok(Some(list)),
            Err(text) => Err(text),
        }
    }
}

/// Takes `bytes` as a nul-terminated argument, or rejects them for the
/// first nul byte they hold.
pub fn argument(bytes: Vec<u8>) -> (r: Result<Vec<u8>, MagicError>)
    ensures
        match r {
            Ok(arg) => argument_of(bytes@) == Ok::<Seq<u8>, Seq<char>>(arg@),
            Err(e) => argument_of(bytes@) == Err::<Seq<u8>, Seq<char>>(e@),
        },
{
    match find_nul(bytes.as_slice()) {
        Some(at) => {
            proof {
                first_nul_is_unique(bytes@, at as int);
            }
            Err(MagicError::invalid_argument(at, bytes.as_slice()))
        },
        None => Ok(bytes),
    }
}

/// Makes the argument that names the databases `names`.
pub fn database_argument(names: &[&str]) -> (r: Result<Option<Vec<u8>>, MagicError>)
    ensures
        match r {
            Ok(Some(list)) => database_argument_of(names@) == Ok::<Option<Seq<u8>>, Seq<char>>(
                Some(list@),
            ),
            Ok(None) => database_argument_of(names@) == Ok::<Option<Seq<u8>>, Seq<char>>(None),
            Err(e) => database_argument_of(names@) == Err::<Option<Seq<u8>>, Seq<char>>(e@),
        },
{
    if names.len() == 0 {
        Ok(None)
    } else {
        match argument(join_names(names)) {
            Ok(list) => Ok(Some(list)),
            Err(e) => Err(e),
        }
    }
}

/// Makes the argument that names the file `filename`: its UTF-8 bytes.
pub fn path_argument(filename: &str) -> (r: Result<Vec<u8>, MagicError>)
    ensures
        match r {
            Ok(path) => argument_of(encode_utf8(filename@)) == Ok::<Seq<u8>, Seq<char>>(path@),
            Err(e) => argument_of(encode_utf8(filename@)) == Err::<Seq<u8>, Seq<char>>(e@),
        },
{
    argument(slice_to_vec(filename.as_bytes()))
}

/// Copies compiled databases, keeping their order and contents.
pub fn copy_buffers(buffers: &[&[u8]]) -> (copies: Vec<Vec<u8>>)
    ensures
        buffers_view(copies@) == slices_view(buffers@),
{
    let mut copies: Vec<Vec<u8>> = Vec::new();
    let mut i: usize = 0;
    while i < buffers.len()
        invariant
            0 <= i <= buffers@.len(),
            copies@.len() == i,
            forall|k: int| 0 <= k < i ==> copies@[k]@ == buffers@[k]@,
        decreases buffers@.len() - i,
    {
        let slice: &[u8] = buffers[i];
        copies.push(slice_to_vec(slice));
        i = i + 1;
    }
    assert(buffers_view(copies@) =~= slices_view(buffers@));
    copies
}

/// `errno::errno` reads the calling thread's last operating system error
/// number. Nothing is known of the number it gives.
#[verifier::external_body]
fn os_error_code() -> (code: i32) {
    errno::errno().0
}

/// The `Display` of `errno::Errno` renders an error number as the operating
/// system describes it. The text depends on the system and its locale, so
/// nothing is claimed of it.
#[verifier::external_body]
fn os_error_text(code: i32) -> (text: String) {
    format!("{}", errno::Errno(code))
}

impl Reply {
    /// The reply for an engine that returned no instance: the calling
    /// thread's last operating system error. It is to be called right after
    /// the engine returned, before anything else can change that error.
    pub fn refused() -> (reply: Reply)
        ensures
            reply is Refused,
    {
        let code = os_error_code();
        let text = os_error_text(code);
        Reply::Refused { code, text }
    }
}

} // verus!
