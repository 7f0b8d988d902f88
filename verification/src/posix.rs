//! The loader of the POSIX family: `dlopen`, `dlsym`, `dlclose`, and the
//! message that `dlerror` keeps of the last failure.
//!
//! None of the three calls tells failure from a legitimate null by what it
//! returns, so every call is followed by a look at the last error, whatever
//! came back.

use vstd::prelude::*;
use vstd::string::*;
use vstd::utf8::*;
use crate::text::{c_string, decode, decode_lossy, nul_free, utf8_error_text, utf8_lossy};

verus! {

/// The flag of `dlopen` that binds symbols when they are first used.
pub const LAZY: i32 = 1;

/// A call of the loader.
#[derive(Debug, PartialEq, Eq)]
pub enum Operation {
    /// `dlopen` with a terminated file name, or with no name for the
    /// running program itself.
    Open { filename: Option<Vec<u8>>, flag: i32 },
    /// `dlsym` with a terminated symbol name.
    Symbol { handle: usize, symbol: Vec<u8> },
    /// `dlclose`.
    Close { handle: usize },
}

/// What the caller is to invoke next.
#[derive(Debug, PartialEq, Eq)]
pub enum Request {
    /// The loader call itself.
    Run(Operation),
    /// `dlerror`.
    LastError,
}

/// What the operating system answered.
#[derive(Debug, PartialEq, Eq)]
pub enum Reply {
    /// The word that a loader call returned: a handle, an address or a
    /// status.
    Returned(usize),
    /// The message that `dlerror` pointed to, without its terminator, or
    /// `None` for a null pointer.
    LastError(Option<Vec<u8>>),
}

/// A checked call under way.
#[derive(Debug, PartialEq, Eq)]
pub enum Session {
    /// The loader call has been requested.
    Running,
    /// The loader call returned `value`, and `dlerror` has been requested.
    Checking { value: usize },
}

/// How a checked call goes on.
#[derive(Debug, PartialEq, Eq)]
pub enum Progress {
    /// With another request.
    Call(Session, Request),
    /// It is over: the value that the loader call returned, or the message
    /// of its failure.
    Done(Result<usize, String>),
}

/// An [`Operation`] as plain values.
pub enum OperationView {
    Open { filename: Option<Seq<u8>>, flag: i32 },
    Symbol { handle: usize, symbol: Seq<u8> },
    Close { handle: usize },
}

/// A [`Request`] as plain values.
pub enum RequestView {
    Run(OperationView),
    LastError,
}

/// A [`Reply`] as plain values.
pub enum ReplyView {
    Returned(usize),
    LastError(Option<Seq<u8>>),
}

/// A [`Progress`] as plain values.
pub enum ProgressView {
    Call(Session, RequestView),
    Done(Result<usize, Seq<char>>),
}

impl View for Operation {
    type V = OperationView;

    open spec fn view(&self) -> OperationView {
        match *self {
            Operation::Open { filename: Some(name), flag } => OperationView::Open {
                filename: Some(name@),
                flag,
            },
            Operation::Open { filename: None, flag } => OperationView::Open { filename: None, flag },
            Operation::Symbol { handle, symbol } => OperationView::Symbol {
                handle,
                symbol: symbol@,
            },
            Operation::Close { handle } => OperationView::Close { handle },
        }
    }
}

impl View for Request {
    type V = RequestView;

    open spec fn view(&self) -> RequestView {
        match *self {
            Request::Run(operation) => RequestView::Run(operation@),
            Request::LastError => RequestView::LastError,
        }
    }
}

impl View for Reply {
    type V = ReplyView;

    open spec fn view(&self) -> ReplyView {
        match *self {
            Reply::Returned(value) => ReplyView::Returned(value),
            Reply::LastError(Some(message)) => ReplyView::LastError(Some(message@)),
            Reply::LastError(None) => ReplyView::LastError(None),
        }
    }
}

impl View for Progress {
    type V = ProgressView;

    open spec fn view(&self) -> ProgressView {
        match *self {
            Progress::Call(session, request) => ProgressView::Call(session, request@),
            Progress::Done(Ok(value)) => ProgressView::Done(Ok(value)),
            Progress::Done(Err(message)) => ProgressView::Done(Err(message@)),
        }
    }
}

/// The message for a file name that holds a zero byte.
pub open spec fn open_failure(name: Seq<char>) -> Seq<char> {
    "failed to open external `"@ + name + "`"@
}

/// The failure that a message of `dlerror` stands for: the message itself
/// where it is UTF-8, else a report that it could not be read.
pub open spec fn failure(message: Seq<u8>) -> Seq<char> {
    if valid_utf8(message) {
        decode_utf8(message)
    } else {
        "failed to check for errors: "@ + utf8_error_text(message)
    }
}

/// What a loader call came to, given the word it returned and the last
/// error after it: the word where there is no last error, whatever the
/// word is, and else the failure.
pub open spec fn checked(value: usize, last_error: Option<Seq<u8>>) -> Result<usize, Seq<char>> {
    match last_error {
        None => Ok(value),
        Some(message) => Err(failure(message)),
    }
}

impl Session {
    /// Whether `reply` answers the request that is pending.
    pub open spec fn expects(self, reply: ReplyView) -> bool {
        match self {
            Session::Running => reply is Returned,
            Session::Checking { .. } => reply is LastError,
        }
    }

    /// How the call goes on after `reply`: a loader call is followed by a
    /// look at the last error, and that look ends the call.
    pub open spec fn after(self, reply: ReplyView) -> ProgressView
        recommends
            self.expects(reply),
    {
        match self {
            Session::Running => ProgressView::Call(
                Session::Checking { value: reply->Returned_0 },
                RequestView::LastError,
            ),
            Session::Checking { value } => ProgressView::Done(checked(value, reply->LastError_0)),
        }
    }

    /// Whether `reply` answers the request that is pending.
    pub fn accepts(&self, reply: &Reply) -> (yes: bool)
        ensures
            yes == self.expects(reply@),
    {
        match (self, reply) {
            (Session::Running, Reply::Returned(_)) => true,
            (Session::Checking { .. }, Reply::LastError(_)) => true,
            _ => false,
        }
    }

    /// Takes the answer to the pending request and says how the call goes
    /// on.
    pub fn resume(self, reply: Reply) -> (next: Progress)
        requires
            self.expects(reply@),
        ensures
            next@ == self.after(reply@),
    {
        match (self, reply) {
            (Session::Running, Reply::Returned(value)) => Progress::Call(
                Session::Checking { value },
                Request::LastError,
            ),
            (Session::Checking { value }, Reply::LastError(None)) => Progress::Done(Ok(value)),
            (Session::Checking { value }, Reply::LastError(Some(message))) => Progress::Done(
                Err(failure_text(decode(message.as_slice()))),
            ),
            _ => unreached(),
        }
    }
}

/// A checked call, from the loader call to its end: whatever word the
/// loader call returns, the last error is asked for next, and the call
/// succeeds with that word exactly where no last error is found.
pub proof fn checked_call_runs(value: usize, last_error: Option<Seq<u8>>)
    ensures
        Session::Running.after(ReplyView::Returned(value)) == ProgressView::Call(
            Session::Checking { value },
            RequestView::LastError,
        ),
        (Session::Checking { value }).after(ReplyView::LastError(last_error)) == ProgressView::Done(
            checked(value, last_error),
        ),
        checked(value, last_error) is Ok <==> last_error is None,
        last_error is None ==> checked(value, last_error) == Ok::<usize, Seq<char>>(value),
{
}

/// The failure that a decoded message of `dlerror` stands for: the message
/// where decoding gave one, else a report that holds the decoder's error.
pub fn failure_text(decoded: Result<String, String>) -> (text: String)
    ensures
        text@ == match decoded {
            Ok(message) => message@,
            Err(error) => "failed to check for errors: "@ + error@,
        },
{
    match decoded {
        Ok(message) => message,
        Err(error) => {
            let mut text = String::from_str("failed to check for errors: ");
            text.append(error.as_str());
            text
        },
    }
}

/// The message for a file name that holds a zero byte, given the name as
/// text.
pub fn open_failure_text(name: &str) -> (text: String)
    ensures
        text@ == open_failure(name@),
{
    let mut text = String::from_str("failed to open external `");
    text.append(name);
    text.append("`");
    text
}

/// Begins a checked call of `operation`: the operation is requested first,
/// and the last error is looked at when it has returned.
pub fn check_for_errors_in(operation: Operation) -> (start: (Session, Request))
    ensures
        start.0 == Session::Running,
        start.1@ == RequestView::Run(operation@),
{
    (Session::Running, Request::Run(operation))
}

/// Begins opening the library in the file `filename`, or the running
/// program itself where there is no name. A name with a zero byte in it is
/// refused: the loader would take it to end there.
pub fn open(filename: Option<&[u8]>) -> (start: Result<(Session, Request), String>)
    ensures
        match filename {
            None => start matches Ok((session, request)) && session == Session::Running
                && request@ == RequestView::Run(OperationView::Open { filename: None, flag: LAZY }),
            Some(name) => if nul_free(name@) {
                start matches Ok((session, request)) && session == Session::Running && request@
                    == RequestView::Run(
                    OperationView::Open { filename: Some(name@.push(0)), flag: LAZY },
                )
            } else {
                start matches Err(message) && message@ == open_failure(utf8_lossy(name@))
            },
        },
{
    match filename {
        None => Ok(check_for_errors_in(Operation::Open { filename: None, flag: LAZY })),
        Some(name) => match c_string(name) {
            Some(terminated) => Ok(
                check_for_errors_in(Operation::Open { filename: Some(terminated), flag: LAZY }),
            ),
            None => Err(open_failure_text(decode_lossy(name).as_str())),
        },
    }
}

/// The call that resolves the terminated symbol `name` in the library
/// `handle`.
pub fn symbol(handle: usize, name: Vec<u8>) -> (operation: Operation)
    ensures
        operation@ == (OperationView::Symbol { handle, symbol: name@ }),
{
    Operation::Symbol { handle, symbol: name }
}

/// The call that closes the library `handle`.
pub fn close(handle: usize) -> (operation: Operation)
    ensures
        operation@ == (OperationView::Close { handle }),
{
    Operation::Close { handle }
}

} // verus!
