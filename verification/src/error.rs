use vstd::prelude::*;
use vstd::std_specs::convert::FromSpecImpl;

use crate::text::{
    dec_digits, dec_digits_denote, decimal, digits_value, hex8, hex8_round_trip, hex8_text,
};

verus! {

/// A Windows API call that failed: the name of the function and the code
/// that `GetLastError` gave right after it.
#[derive(Debug)]
pub struct WinapiCallError {
    api_name: String,
    error_code: u32,
}

/// What a [`WinapiCallError`] holds, as plain values.
pub struct CallErrorView {
    pub api_name: Seq<char>,
    pub error_code: u32,
}

impl View for WinapiCallError {
    type V = CallErrorView;

    closed spec fn view(&self) -> CallErrorView {
        CallErrorView { api_name: self.api_name@, error_code: self.error_code }
    }
}

/// The text of a failed call: the function's name, its error code in
/// hexadecimal and the system's message for that code (empty when there
/// is none).
pub open spec fn call_error_text(e: CallErrorView, system_message: Option<Seq<char>>) -> Seq<char> {
    e.api_name + " error. Code: "@ + hex8_text(e.error_code) + ", msg: "@ + match system_message {
        Some(m) => m,
        None => Seq::empty(),
    }
}

impl WinapiCallError {
    /// Records that the call `api_call` failed with the code `error_code`.
    pub fn new(api_call: &str, error_code: u32) -> (e: WinapiCallError)
        ensures
            e@ == (CallErrorView { api_name: api_call@, error_code }),
    {
        WinapiCallError { api_name: String::from_str(api_call), error_code }
    }

    pub fn api_name(&self) -> (s: &str)
        ensures
            s@ == self@.api_name,
    {
        self.api_name.as_str()
    }

    pub fn error_code(&self) -> (c: u32)
        ensures
            c == self@.error_code,
    {
        self.error_code
    }

    /// The error as it is shown to the user, given the system's message for
    /// its code.
    pub fn describe(&self, system_message: Option<String>) -> (s: String)
        ensures
            s@ == call_error_text(self@, match system_message {
                Some(m) => Some(m@),
                None => None,
            }),
    {
        let mut s = self.api_name.clone();
        s.append(" error. Code: ");
        let code = hex8(self.error_code);
        s.append(code.as_str());
        s.append(", msg: ");
        match system_message {
            Some(m) => {
                s.append(m.as_str());
            },
            None => {},
        }
        s
    }
}

/// An error of the service management procedures.
#[derive(Debug)]
pub enum WinapiError {
    /// A Windows API call failed.
    WinapiCallError(WinapiCallError),
    /// A text handed to a Windows API call held a NUL character; the
    /// payload is the byte position of the first one.
    NullError(usize),
    /// A file system operation failed; the payload is the description of
    /// that error.
    IoError(String),
}

/// What a [`WinapiError`] holds, as plain values.
pub enum ErrorView {
    Call(CallErrorView),
    Null(usize),
    Io(Seq<char>),
}

impl View for WinapiError {
    type V = ErrorView;

    open spec fn view(&self) -> ErrorView {
        match self {
            WinapiError::WinapiCallError(e) => ErrorView::Call(e@),
            WinapiError::NullError(position) => ErrorView::Null(*position),
            WinapiError::IoError(m) => ErrorView::Io(m@),
        }
    }
}

/// The text of an error about a NUL character at byte `position`.
pub open spec fn nul_text(position: usize) -> Seq<char> {
    "nul byte found in provided data at position: "@ + dec_digits(position as nat)
}

/// The text of an error: that of the failed call, the place of the NUL
/// character, or the description held.
pub open spec fn error_text(e: ErrorView, system_message: Option<Seq<char>>) -> Seq<char> {
    match e {
        ErrorView::Call(c) => call_error_text(c, system_message),
        ErrorView::Null(position) => nul_text(position),
        ErrorView::Io(m) => m,
    }
}

impl WinapiError {
    /// The error as it is shown to the user; `system_message` is the
    /// system's message for the code of a failed call.
    pub fn to_message(&self, system_message: Option<String>) -> (s: String)
        ensures
            s@ == error_text(self@, match system_message {
                Some(m) => Some(m@),
                None => None,
            }),
    {
        match self {
            WinapiError::WinapiCallError(e) => e.describe(system_message),
            WinapiError::NullError(position) => {
                let mut s = String::from_str("nul byte found in provided data at position: ");
                let digits = decimal(*position as u64);
                s.append(digits.as_str());
                s
            },
            WinapiError::IoError(m) => m.clone(),
        }
    }

    /// The code of a failed call, if this error is one.
    pub fn error_code(&self) -> (c: Option<u32>)
        ensures
            c == match self@ {
                ErrorView::Call(e) => Some(e.error_code),
                _ => None,
            },
    {
        match self {
            WinapiError::WinapiCallError(e) => Some(e.error_code),
            _ => None,
        }
    }
}

impl From<WinapiCallError> for WinapiError {
    fn from(e: WinapiCallError) -> (r: WinapiError)
        ensures
            r@ == ErrorView::Call(e@),
    {
        WinapiError::WinapiCallError(e)
    }
}

impl FromSpecImpl<WinapiCallError> for WinapiError {
    open spec fn obeys_from_spec() -> bool {
        true
    }

    open spec fn from_spec(e: WinapiCallError) -> WinapiError {
        WinapiError::WinapiCallError(e)
    }
}

/// The text of a failed call reads, in order: the call's name,
/// `" error. Code: "`, `0x` and eight hexadecimal digits that denote the
/// error code, `", msg: "`, then the system's message (nothing when there
/// is none).
pub proof fn call_error_text_reads_back(e: CallErrorView, system_message: Option<Seq<char>>)
    ensures
        ({
            let t = call_error_text(e, system_message);
            let n = e.api_name.len() as int;
            let m = match system_message {
                Some(m) => m,
                None => Seq::empty(),
            };
            &&& t.len() == n + 31 + m.len()
            &&& t.subrange(0, n) == e.api_name
            &&& t.subrange(n, n + 14) == " error. Code: "@
            &&& t.subrange(n + 14, n + 16) == seq!['0', 'x']
            &&& digits_value(t.subrange(n + 16, n + 24), 16) == e.error_code
            &&& t.subrange(n + 24, n + 31) == ", msg: "@
            &&& t.subrange(n + 31, t.len() as int) == m
        }),
{
    reveal_strlit(" error. Code: ");
    reveal_strlit(", msg: ");
    hex8_round_trip(e.error_code);
    let t = call_error_text(e, system_message);
    let n = e.api_name.len() as int;
    let h = hex8_text(e.error_code);
    let m = match system_message {
        Some(m) => m,
        None => Seq::<char>::empty(),
    };
    assert(t == e.api_name + " error. Code: "@ + h + ", msg: "@ + m);
    assert(t.subrange(0, n) =~= e.api_name);
    assert(t.subrange(n, n + 14) =~= " error. Code: "@);
    assert(t.subrange(n + 14, n + 16) =~= h.subrange(0, 2));
    assert(t.subrange(n + 16, n + 24) =~= h.subrange(2, 10));
    assert(t.subrange(n + 24, n + 31) =~= ", msg: "@);
    assert(t.subrange(n + 31, t.len() as int) =~= m);
}

/// The text of a NUL error is a fixed sentence followed by the decimal
/// digits of the position.
pub proof fn nul_text_reads_back(position: usize)
    ensures
        nul_text(position).subrange(0, 45) == "nul byte found in provided data at position: "@,
        digits_value(nul_text(position).subrange(45, nul_text(position).len() as int), 10)
            == position,
{
    reveal_strlit("nul byte found in provided data at position: ");
    dec_digits_denote(position as nat);
    let t = nul_text(position);
    assert(t.subrange(0, 45) =~= "nul byte found in provided data at position: "@);
    assert(t.subrange(45, t.len() as int) =~= dec_digits(position as nat));
}

} // verus!
