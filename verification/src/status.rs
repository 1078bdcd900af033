//! The controller's reply codes and their decoded meaning.

use vstd::prelude::*;

verus! {

/// Closed set of states the test controller can report, decoded from the
/// integer code in its reply. Startup shows `Idle`; every failure collapses
/// to `Error`.
#[derive(Clone, Copy, PartialEq, Eq, Structural, Debug)]
pub enum ServerResponse {
    Idle,
    Awake,
    InProgress,
    Done,
    Error,
}

/// The decode table: codes 0 through 3 name a state; every other code,
/// negative or above 3, is an error.
pub open spec fn spec_decode(n: int) -> ServerResponse {
    if n == 0 {
        ServerResponse::Idle
    } else if n == 1 {
        ServerResponse::Awake
    } else if n == 2 {
        ServerResponse::InProgress
    } else if n == 3 {
        ServerResponse::Done
    } else {
        ServerResponse::Error
    }
}

impl ServerResponse {
    /// The integer code displayed for this state; `Error` displays as -1.
    pub open spec fn spec_code(self) -> int {
        match self {
            ServerResponse::Idle => 0,
            ServerResponse::Awake => 1,
            ServerResponse::InProgress => 2,
            ServerResponse::Done => 3,
            ServerResponse::Error => -1,
        }
    }

    /// The fixed message displayed for this state.
    pub open spec fn spec_message(self) -> Seq<char> {
        match self {
            ServerResponse::Idle => "Awaiting input"@,
            ServerResponse::Awake => "Server is up and has loaded microcontroller firmware"@,
            ServerResponse::InProgress => "Microcontroller has began testing"@,
            ServerResponse::Done => "Test results are available"@,
            ServerResponse::Error => "Error has occurred either on the server or microcontroller!"@,
        }
    }

    /// Decodes a reply code. Total: every `i32` yields exactly one variant.
    pub fn from_i32(n: i32) -> (r: ServerResponse)
        ensures
            r == spec_decode(n as int),
    {
        match n {
            0 => ServerResponse::Idle,
            1 => ServerResponse::Awake,
            2 => ServerResponse::InProgress,
            3 => ServerResponse::Done,
            _ => ServerResponse::Error,
        }
    }

    /// The code shown in the status readout.
    pub fn code(&self) -> (r: i32)
        ensures
            r as int == self.spec_code(),
    {
        match self {
            ServerResponse::Idle => 0,
            ServerResponse::Awake => 1,
            ServerResponse::InProgress => 2,
            ServerResponse::Done => 3,
            ServerResponse::Error => -1,
        }
    }

    /// The message shown in the status readout.
    pub fn message(&self) -> (r: &'static str)
        ensures
            r@ == self.spec_message(),
    {
        match self {
            ServerResponse::Idle => "Awaiting input",
            ServerResponse::Awake => "Server is up and has loaded microcontroller firmware",
            ServerResponse::InProgress => "Microcontroller has began testing",
            ServerResponse::Done => "Test results are available",
            ServerResponse::Error => "Error has occurred either on the server or microcontroller!",
        }
    }
}

/// Law: decoding yields `Error` exactly for the codes outside the table,
/// the negatives and those above 3.
pub proof fn lemma_decode_error_iff(n: i32)
    ensures
        spec_decode(n as int) == ServerResponse::Error <==> (n < 0 || n > 3),
{
}

/// Law: decoding is a function of the code alone: two decodings of the same
/// code agree in variant, displayed code and message.
pub proof fn lemma_decode_deterministic(n: i32, a: ServerResponse, b: ServerResponse)
    requires
        a == spec_decode(n as int),
        b == spec_decode(n as int),
    ensures
        a == b,
        a.spec_code() == b.spec_code(),
        a.spec_message() == b.spec_message(),
{
}

} // verus!
