//! The client side of the control channel: what is sent for an action, and
//! what the answer means.

use crate::config::Action;
use crate::text::str_eq;
use vstd::prelude::*;
use vstd::string::*;

verus! {

/// Why nothing is sent.
#[derive(Clone, Copy, Debug, PartialEq, Eq, Structural)]
pub enum ClientError {
    /// No client may ask for this action.
    Unsupported(Action),
}

impl ClientError {
    /// The error in words.
    pub open spec fn text(self) -> Seq<char> {
        match self {
            ClientError::Unsupported(action) => "client does not support the action "@
                + action.word(),
        }
    }

    /// The error in words.
    pub fn message(&self) -> (text: String)
        ensures
            text@ == self.text(),
    {
        match self {
            ClientError::Unsupported(action) => {
                let mut text = String::from_str("client does not support the action ");
                text.append(action.as_str());
                text
            },
        }
    }
}

/// What a client sends to ask for `action`: the word of the action, as
/// bytes and with nothing after it.
pub open spec fn request_bytes(action: Action) -> Result<Seq<u8>, ClientError> {
    if action == Action::Serve {
        Err(ClientError::Unsupported(Action::Serve))
    } else {
        Ok(vstd::utf8::encode_utf8(action.word()))
    }
}

/// The bytes to send to the daemon to ask for `action`. To serve is the
/// daemon's own mode and cannot be asked for.
pub fn request(action: Action) -> (payload: Result<Vec<u8>, ClientError>)
    ensures
        match payload {
            Ok(bytes) => request_bytes(action) == Ok::<Seq<u8>, ClientError>(bytes@),
            Err(e) => request_bytes(action) == Err::<Seq<u8>, ClientError>(e),
        },
{
    match action {
        Action::Serve => Err(ClientError::Unsupported(Action::Serve)),
        _ => Ok(action.as_str().as_bytes_vec()),
    }
}

/// The exit code that an answer of the daemon stands for: 0 for `OK` and
/// for nothing else.
pub open spec fn exit_code_of(response: Seq<char>) -> i32 {
    if response == "OK"@ {
        0
    } else {
        1
    }
}

/// The exit code of a client that was answered `response`. Any answer but
/// `OK` is to be shown to the user as it came, the status text too.
pub fn exit_code(response: &str) -> (code: i32)
    ensures
        code == exit_code_of(response@),
{
    if str_eq(response, "OK") {
        0
    } else {
        1
    }
}

} // verus!
