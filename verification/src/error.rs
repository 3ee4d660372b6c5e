//! The one error type of the library, and the texts it is made with.

use crate::text::{byte_list, decimal, push_byte_list, push_decimal, push_signed_decimal, signed_decimal};
use vstd::prelude::*;

verus! {

/// Why an operation failed, as a description for people to read.
///
/// The description is all there is: an error is not told apart from another
/// by anything finer.
#[derive(Clone, Debug, PartialEq, Eq)]
pub struct MagicError {
    pub desc: String,
}

impl View for MagicError {
    type V = Seq<char>;

    open spec fn view(&self) -> Seq<char> {
        self.desc@
    }
}

/// The description of a failure to create an engine instance: the operating
/// system's text for the error, then its number in round brackets.
pub open spec fn allocation_text(text: Seq<char>, code: int) -> Seq<char> {
    text + " ("@ + signed_decimal(code) + ")"@
}

/// The description of an argument that cannot be handed to the engine
/// because of the nul byte at index `at` of `bytes`.
pub open spec fn nul_text(at: nat, bytes: Seq<u8>) -> Seq<char> {
    "NulError("@ + decimal(at) + ", ["@ + byte_list(bytes) + "])"@
}

/// The description of a failure that the engine reported: its own text
/// where it gave one.
pub open spec fn failure_text(text: Option<Seq<char>>) -> Seq<char> {
    match text {
        Some(t) => t,
        None => "unknown error"@,
    }
}

/// The description of a request made of a handle that cannot take one.
pub open spec fn not_ready_text() -> Seq<char> {
    "the handle is not ready for a request"@
}

/// The description of an answer that does not belong to what was asked.
pub open spec fn unexpected_text() -> Seq<char> {
    "the reply does not answer the pending request"@
}

impl MagicError {
    /// The error of an engine instance that could not be created, from the
    /// operating system's error number and its text for it.
    pub fn allocation(text: &str, code: i32) -> (e: MagicError)
        ensures
            e@ == allocation_text(text@, code as int),
    {
        let mut desc = text.to_owned();
        desc.append(" (");
        push_signed_decimal(&mut desc, code);
        desc.append(")");
        MagicError { desc }
    }

    /// The error of an argument that holds a nul byte at index `at`, where
    /// the engine takes a nul-terminated string.
    pub fn invalid_argument(at: usize, bytes: &[u8]) -> (e: MagicError)
        ensures
            e@ == nul_text(at as nat, bytes@),
    {
        let mut desc = "NulError(".to_owned();
        push_decimal(&mut desc, at as u64);
        desc.append(", [");
        push_byte_list(&mut desc, bytes);
        desc.append("])");
        MagicError { desc }
    }

    /// The error of an operation that the engine reported as failed, from
    /// the engine's last error text if it had one.
    pub fn operation(text: Option<String>) -> (e: MagicError)
        ensures
            e@ == failure_text(
                match text {
                    Some(t) => Some(t@),
                    None => None,
                },
            ),
    {
        match text {
            Some(desc) => MagicError { desc },
            None => MagicError { desc: "unknown error".to_owned() },
        }
    }

    /// The error of a request made of a handle that is busy with another
    /// request, or closed.
    pub fn not_ready() -> (e: MagicError)
        ensures
            e@ == not_ready_text(),
    {
        MagicError { desc: "the handle is not ready for a request".to_owned() }
    }

    /// The error of a reply that does not belong to the pending request.
    pub fn unexpected_reply() -> (e: MagicError)
        ensures
            e@ == unexpected_text(),
    {
        MagicError { desc: "the reply does not answer the pending request".to_owned() }
    }

    /// What kind of error this is, in a few fixed words.
    pub fn description(&self) -> (words: &'static str)
        ensures
            words@ == "internal libmagic error"@,
    {
        "internal libmagic error"
    }

    /// The description, as a string of its own.
    pub fn to_string(&self) -> (text: String)
        ensures
            text@ == self@,
    {
        self.desc.clone()
    }
}

} // verus!
