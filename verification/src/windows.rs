//! The loader of the Windows family: `LoadLibraryW`, `GetModuleHandleExW`,
//! `GetProcAddress`, `FreeLibrary`, and the error code that each thread
//! keeps of its last failure.
//!
//! While a library is being opened, the dialog that the system would show
//! for a missing module is switched off, for the thread where the system
//! can do that and for the process where it cannot. Whatever comes of the
//! open, the mode that was found is put back before the open ends.

use vstd::prelude::*;
use vstd::string::*;
use crate::text::{
    decimal,
    decimal_text,
    decode_wide_lossy,
    nul_free_wide,
    trim_end,
    trimmed,
    utf16_lossy,
    wide_c_string,
};

verus! {

/// The error mode in which the system shows no dialog for a critical error.
pub const SEM_FAILCRITICALERRORS: u32 = 1;

/// The error code of a system that lacks the function called.
pub const ERROR_CALL_NOT_IMPLEMENTED: u32 = 120;

/// For whom an error mode holds.
#[derive(Clone, Copy, PartialEq, Eq, Debug, Structural)]
pub enum Scope {
    Thread,
    Process,
}

/// An error mode that was replaced and has to be put back.
#[derive(Clone, Copy, PartialEq, Eq, Debug, Structural)]
pub struct Guard {
    pub scope: Scope,
    pub previous: u32,
}

/// A call of the loader.
#[derive(Debug, PartialEq, Eq)]
pub enum Operation {
    /// `LoadLibraryW` with a terminated file name.
    Load { filename: Vec<u16> },
    /// `GetModuleHandleExW` without flags and without a name: the handle of
    /// the running program.
    Own,
    /// `GetProcAddress` with a terminated symbol name.
    Symbol { handle: usize, symbol: Vec<u8> },
    /// `FreeLibrary`.
    Close { handle: usize },
}

/// What the caller is to invoke next.
#[derive(Debug, PartialEq, Eq)]
pub enum Request {
    /// `SetThreadErrorMode` with `mode`.
    SetThreadErrorMode { mode: u32 },
    /// `SetErrorMode` with `mode`.
    SetErrorMode { mode: u32 },
    /// `SetLastError` with `code`.
    SetLastError { code: u32 },
    /// `GetLastError`.
    GetLastError,
    /// The loader call itself.
    Run(Operation),
    /// `FormatMessageW` for the system's message of `code`.
    FormatMessage { code: u32 },
}

/// What the operating system answered.
#[derive(Debug, PartialEq, Eq)]
pub enum Reply {
    /// To `SetThreadErrorMode` and `SetErrorMode`: whether the mode was set,
    /// and the mode that held before.
    ErrorMode { succeeded: bool, previous: u32 },
    /// To `SetLastError`.
    Cleared,
    /// To `GetLastError`: the code.
    LastError(u32),
    /// To `GetModuleHandleExW`: whether it succeeded, and the handle that it
    /// stored.
    Module { succeeded: bool, handle: usize },
    /// To the other loader calls: the word that came back.
    Returned(usize),
    /// To `FormatMessageW`: the units that it wrote, none where it failed.
    Message(Vec<u16>),
}

/// An open or a checked call under way. Each state names the request that
/// is pending.
#[derive(Debug, PartialEq, Eq)]
pub enum Session {
    /// `SetThreadErrorMode`, to switch the dialog off.
    ThreadMode { target: Operation },
    /// `GetLastError`, after `SetThreadErrorMode` failed and left `previous`.
    ThreadModeError { target: Operation, previous: u32 },
    /// `SetErrorMode`, to switch the dialog off for the process.
    ProcessMode { target: Operation },
    /// `SetLastError`, to clear the code before `target` runs.
    Clearing { target: Operation, guard: Option<Guard> },
    /// The loader call; `own` where it is `GetModuleHandleExW`.
    Running { own: bool, guard: Option<Guard> },
    /// `GetLastError`, after the loader call returned `value`.
    Failing { value: usize, guard: Option<Guard> },
    /// `FormatMessageW` for `code`.
    Describing { code: u32, guard: Option<Guard> },
    /// The call that puts the error mode back.
    Restoring { outcome: Result<usize, String> },
}

/// How an open or a checked call goes on.
#[derive(Debug, PartialEq, Eq)]
pub enum Progress {
    /// With another request.
    Call(Session, Request),
    /// It is over: the value that the loader call returned, or the message
    /// of its failure.
    Done(Result<usize, String>),
}

/// An [`Operation`] as plain values.
pub enum OperationView {
    Load { filename: Seq<u16> },
    Own,
    Symbol { handle: usize, symbol: Seq<u8> },
    Close { handle: usize },
}

/// A [`Request`] as plain values.
pub enum RequestView {
    SetThreadErrorMode { mode: u32 },
    SetErrorMode { mode: u32 },
    SetLastError { code: u32 },
    GetLastError,
    Run(OperationView),
    FormatMessage { code: u32 },
}

/// A [`Reply`] as plain values.
pub enum ReplyView {
    ErrorMode { succeeded: bool, previous: u32 },
    Cleared,
    LastError(u32),
    Module { succeeded: bool, handle: usize },
    Returned(usize),
    Message(Seq<u16>),
}

/// A [`Session`] as plain values.
pub enum SessionView {
    ThreadMode { target: OperationView },
    ThreadModeError { target: OperationView, previous: u32 },
    ProcessMode { target: OperationView },
    Clearing { target: OperationView, guard: Option<Guard> },
    Running { own: bool, guard: Option<Guard> },
    Failing { value: usize, guard: Option<Guard> },
    Describing { code: u32, guard: Option<Guard> },
    Restoring { outcome: Result<usize, Seq<char>> },
}

/// A [`Progress`] as plain values.
pub enum ProgressView {
    Call(SessionView, RequestView),
    Done(Result<usize, Seq<char>>),
}

/// An outcome as plain values.
pub open spec fn shown(outcome: Result<usize, String>) -> Result<usize, Seq<char>> {
    match outcome {
        Ok(value) => Ok(value),
        Err(message) => Err(message@),
    }
}

impl View for Operation {
    type V = OperationView;

    open spec fn view(&self) -> OperationView {
        match *self {
            Operation::Load { filename } => OperationView::Load { filename: filename@ },
            Operation::Own => OperationView::Own,
            Operation::Symbol { handle, symbol } => OperationView::Symbol {
                handle,
                symbol: symbol@,
            },
            Operation::Close { handle } => OperationView::Close { handle },
        }
    }
}

impl View for Request {
    type V = RequestView;

    open spec fn view(&self) -> RequestView {
        match *self {
            Request::SetThreadErrorMode { mode } => RequestView::SetThreadErrorMode { mode },
            Request::SetErrorMode { mode } => RequestView::SetErrorMode { mode },
            Request::SetLastError { code } => RequestView::SetLastError { code },
            Request::GetLastError => RequestView::GetLastError,
            Request::Run(operation) => RequestView::Run(operation@),
            Request::FormatMessage { code } => RequestView::FormatMessage { code },
        }
    }
}

impl View for Reply {
    type V = ReplyView;

    open spec fn view(&self) -> ReplyView {
        match *self {
            Reply::ErrorMode { succeeded, previous } => ReplyView::ErrorMode { succeeded, previous },
            Reply::Cleared => ReplyView::Cleared,
            Reply::LastError(code) => ReplyView::LastError(code),
            Reply::Module { succeeded, handle } => ReplyView::Module { succeeded, handle },
            Reply::Returned(value) => ReplyView::Returned(value),
            Reply::Message(units) => ReplyView::Message(units@),
        }
    }
}

impl View for Session {
    type V = SessionView;

    open spec fn view(&self) -> SessionView {
        match *self {
            Session::ThreadMode { target } => SessionView::ThreadMode { target: target@ },
            Session::ThreadModeError { target, previous } => SessionView::ThreadModeError {
                target: target@,
                previous,
            },
            Session::ProcessMode { target } => SessionView::ProcessMode { target: target@ },
            Session::Clearing { target, guard } => SessionView::Clearing { target: target@, guard },
            Session::Running { own, guard } => SessionView::Running { own, guard },
            Session::Failing { value, guard } => SessionView::Failing { value, guard },
            Session::Describing { code, guard } => SessionView::Describing { code, guard },
            Session::Restoring { outcome } => SessionView::Restoring { outcome: shown(outcome) },
        }
    }
}

impl View for Progress {
    type V = ProgressView;

    open spec fn view(&self) -> ProgressView {
        match *self {
            Progress::Call(session, request) => ProgressView::Call(session@, request@),
            Progress::Done(outcome) => ProgressView::Done(shown(outcome)),
        }
    }
}

/// The message for a file name that holds a zero unit.
pub open spec fn open_failure(name: Seq<char>) -> Seq<char> {
    "failed to open external `"@ + name + "`"@
}

/// The message for the error code `err`, given what the system wrote for
/// it: the code in words of this crate where the system wrote nothing, else
/// the system's text without the white space at its end.
pub open spec fn error_string(err: u32, formatted: Seq<u16>) -> Seq<char> {
    if formatted.len() == 0 {
        "OS Error "@ + decimal(err as nat)
    } else {
        trim_end(utf16_lossy(formatted))
    }
}

impl Guard {
    /// The request that puts the replaced mode back, for the one for whom
    /// it was replaced.
    pub open spec fn restores(self) -> RequestView {
        match self.scope {
            Scope::Thread => RequestView::SetThreadErrorMode { mode: self.previous },
            Scope::Process => RequestView::SetErrorMode { mode: self.previous },
        }
    }

    /// The request that puts the replaced mode back.
    pub fn restore(self) -> (request: Request)
        ensures
            request@ == self.restores(),
    {
        match self.scope {
            Scope::Thread => Request::SetThreadErrorMode { mode: self.previous },
            Scope::Process => Request::SetErrorMode { mode: self.previous },
        }
    }
}

/// How a call ends once its outcome is known: at once where no error mode
/// was replaced, else with the request that puts it back.
pub open spec fn conclude(outcome: Result<usize, Seq<char>>, guard: Option<Guard>) -> ProgressView {
    match guard {
        None => ProgressView::Done(outcome),
        Some(guard) => ProgressView::Call(SessionView::Restoring { outcome }, guard.restores()),
    }
}

/// The clearing of the last error, after which `target` runs.
pub open spec fn clear(target: OperationView, guard: Option<Guard>) -> ProgressView {
    ProgressView::Call(SessionView::Clearing { target, guard }, RequestView::SetLastError { code: 0 })
}

impl SessionView {
    /// Whether `reply` answers the request that is pending.
    pub open spec fn expects(self, reply: ReplyView) -> bool {
        match self {
            SessionView::ThreadMode { .. } => reply is ErrorMode,
            SessionView::ThreadModeError { .. } => reply is LastError,
            SessionView::ProcessMode { .. } => reply is ErrorMode,
            SessionView::Clearing { .. } => reply is Cleared,
            SessionView::Running { own, .. } => if own {
                reply is Module
            } else {
                reply is Returned
            },
            SessionView::Failing { .. } => reply is LastError,
            SessionView::Describing { .. } => reply is Message,
            SessionView::Restoring { .. } => reply is ErrorMode,
        }
    }

    /// How the call goes on after `reply`.
    pub open spec fn after(self, reply: ReplyView) -> ProgressView
        recommends
            self.expects(reply),
    {
        match self {
            SessionView::ThreadMode { target } => if reply->ErrorMode_succeeded {
                clear(target, Some(Guard { scope: Scope::Thread, previous: reply->ErrorMode_previous }))
            } else {
                ProgressView::Call(
                    SessionView::ThreadModeError { target, previous: reply->ErrorMode_previous },
                    RequestView::GetLastError,
                )
            },
            SessionView::ThreadModeError { target, previous } => if reply->LastError_0
                == ERROR_CALL_NOT_IMPLEMENTED {
                ProgressView::Call(
                    SessionView::ProcessMode { target },
                    RequestView::SetErrorMode { mode: SEM_FAILCRITICALERRORS },
                )
            } else {
                clear(target, Some(Guard { scope: Scope::Thread, previous }))
            },
            SessionView::ProcessMode { target } => clear(
                target,
                Some(Guard { scope: Scope::Process, previous: reply->ErrorMode_previous }),
            ),
            SessionView::Clearing { target, guard } => ProgressView::Call(
                SessionView::Running { own: target is Own, guard },
                RequestView::Run(target),
            ),
            SessionView::Running { own, guard } => {
                let value = if own {
                    reply->Module_handle
                } else {
                    reply->Returned_0
                };
                let loaded = if own {
                    reply->Module_succeeded
                } else {
                    value != 0
                };
                if guard is Some && loaded {
                    conclude(Ok(value), guard)
                } else {
                    ProgressView::Call(
                        SessionView::Failing { value, guard },
                        RequestView::GetLastError,
                    )
                }
            },
            SessionView::Failing { value, guard } => if guard is None && reply->LastError_0 == 0 {
                ProgressView::Done(Ok(value))
            } else {
                ProgressView::Call(
                    SessionView::Describing { code: reply->LastError_0, guard },
                    RequestView::FormatMessage { code: reply->LastError_0 },
                )
            },
            SessionView::Describing { code, guard } => conclude(
                Err(error_string(code, reply->Message_0)),
                guard,
            ),
            SessionView::Restoring { outcome } => ProgressView::Done(outcome),
        }
    }
}

impl SessionView {
    /// The error mode that was replaced and has not been put back yet.
    pub open spec fn owes(self) -> Option<Guard> {
        match self {
            SessionView::Clearing { guard, .. } => guard,
            SessionView::Running { guard, .. } => guard,
            SessionView::Failing { guard, .. } => guard,
            SessionView::Describing { guard, .. } => guard,
            _ => None,
        }
    }

    /// Whether the error mode is still being replaced.
    pub open spec fn replacing(self) -> bool {
        self is ThreadMode || self is ThreadModeError || self is ProcessMode
    }

    /// An upper bound on the requests that are still to come.
    pub open spec fn rank(self) -> nat {
        match self {
            SessionView::ThreadMode { .. } => 8,
            SessionView::ThreadModeError { .. } => 7,
            SessionView::ProcessMode { .. } => 6,
            SessionView::Clearing { .. } => 5,
            SessionView::Running { .. } => 4,
            SessionView::Failing { .. } => 3,
            SessionView::Describing { .. } => 2,
            SessionView::Restoring { .. } => 1,
        }
    }
}

/// An open loads nothing before the error mode has been replaced: while the
/// mode is being replaced, the next request is another step of that, or the
/// clearing of the last error with the replaced mode on record. The record
/// is for the thread where `SetThreadErrorMode` was the last word, and for
/// the process where `SetErrorMode` stood in for it.
pub proof fn mode_is_replaced_first(session: SessionView, reply: ReplyView)
    requires
        session.replacing(),
        session.expects(reply),
    ensures
        session.after(reply) matches ProgressView::Call(next, request) && (next.replacing() || (
            next is Clearing && next.owes() is Some && request == (RequestView::SetLastError {
                code: 0,
            }))),
        session.after(reply) matches ProgressView::Call(next, _) ==> (next is Clearing
            ==> next.owes()->Some_0.scope == if session is ProcessMode {
            Scope::Process
        } else {
            Scope::Thread
        }),
{
}

/// A replaced error mode is put back on every way out: a call that has one
/// on record does not end, and at each step it either keeps the record or
/// makes the very request that puts the mode back, for the one for whom it
/// was replaced.
pub proof fn mode_is_put_back(session: SessionView, reply: ReplyView)
    requires
        session.owes() is Some,
        session.expects(reply),
    ensures
        session.after(reply) matches ProgressView::Call(next, request) && (next.owes()
            == session.owes() || (next is Restoring && request
            == session.owes()->Some_0.restores())),
{
}

/// The request that puts the mode back is the last one, and the outcome
/// that was reached before it is the outcome of the call.
pub proof fn outcome_survives_restore(outcome: Result<usize, Seq<char>>, reply: ReplyView)
    ensures
        (SessionView::Restoring { outcome }).after(reply) == ProgressView::Done(outcome),
{
}

/// Every call ends: each answer brings it nearer to its end, which is at
/// most eight requests away.
pub proof fn every_step_advances(session: SessionView, reply: ReplyView)
    requires
        session.expects(reply),
    ensures
        session.rank() <= 8,
        session.after(reply) matches ProgressView::Call(next, _) ==> next.rank() < session.rank(),
{
}

/// What an open comes to once the loader call has returned. Where the call
/// gave a handle (for the running program: where it reported success), the
/// open succeeds with it, and nothing else is asked but to put the error
/// mode back. Where it gave none, the last error is read and described, and
/// the open fails with that description, whatever the code is.
pub proof fn open_succeeds_with_a_handle(
    value: usize,
    succeeded: bool,
    guard: Guard,
    code: u32,
    units: Seq<u16>,
)
    ensures
        (SessionView::Running { own: false, guard: Some(guard) }).after(ReplyView::Returned(value))
            == if value != 0 {
            conclude(Ok(value), Some(guard))
        } else {
            ProgressView::Call(
                SessionView::Failing { value, guard: Some(guard) },
                RequestView::GetLastError,
            )
        },
        (SessionView::Running { own: true, guard: Some(guard) }).after(
            ReplyView::Module { succeeded, handle: value },
        ) == if succeeded {
            conclude(Ok(value), Some(guard))
        } else {
            ProgressView::Call(
                SessionView::Failing { value, guard: Some(guard) },
                RequestView::GetLastError,
            )
        },
        (SessionView::Failing { value, guard: Some(guard) }).after(ReplyView::LastError(code))
            == ProgressView::Call(
            SessionView::Describing { code, guard: Some(guard) },
            RequestView::FormatMessage { code },
        ),
        (SessionView::Describing { code, guard: Some(guard) }).after(ReplyView::Message(units))
            == conclude(Err(error_string(code, units)), Some(guard)),
        conclude(Ok(value), Some(guard)) == ProgressView::Call(
            SessionView::Restoring { outcome: Ok(value) },
            guard.restores(),
        ),
{
}

/// What a checked call comes to once the loader call has returned: the
/// last error is read whatever the word is, and the call succeeds with the
/// word exactly where the code is zero.
pub proof fn checked_call_reads_the_code(value: usize, code: u32)
    ensures
        (SessionView::Running { own: false, guard: None }).after(ReplyView::Returned(value))
            == ProgressView::Call(
            SessionView::Failing { value, guard: None },
            RequestView::GetLastError,
        ),
        code == 0 ==> (SessionView::Failing { value, guard: None }).after(
            ReplyView::LastError(code),
        ) == ProgressView::Done(Ok(value)),
        code != 0 ==> (SessionView::Failing { value, guard: None }).after(
            ReplyView::LastError(code),
        ) == ProgressView::Call(
            SessionView::Describing { code, guard: None },
            RequestView::FormatMessage { code },
        ),
{
}

fn clearing(target: Operation, guard: Option<Guard>) -> (next: Progress)
    ensures
        next@ == clear(target@, guard),
{
    Progress::Call(Session::Clearing { target, guard }, Request::SetLastError { code: 0 })
}

fn concluding(outcome: Result<usize, String>, guard: Option<Guard>) -> (next: Progress)
    ensures
        next@ == conclude(shown(outcome), guard),
{
    match guard {
        None => Progress::Done(outcome),
        Some(guard) => Progress::Call(Session::Restoring { outcome }, guard.restore()),
    }
}

impl Session {
    /// Whether `reply` answers the request that is pending.
    pub fn accepts(&self, reply: &Reply) -> (yes: bool)
        ensures
            yes == self@.expects(reply@),
    {
        match (self, reply) {
            (Session::ThreadMode { .. }, Reply::ErrorMode { .. }) => true,
            (Session::ThreadModeError { .. }, Reply::LastError(_)) => true,
            (Session::ProcessMode { .. }, Reply::ErrorMode { .. }) => true,
            (Session::Clearing { .. }, Reply::Cleared) => true,
            (Session::Running { own, .. }, Reply::Module { .. }) => *own,
            (Session::Running { own, .. }, Reply::Returned(_)) => !*own,
            (Session::Failing { .. }, Reply::LastError(_)) => true,
            (Session::Describing { .. }, Reply::Message(_)) => true,
            (Session::Restoring { .. }, Reply::ErrorMode { .. }) => true,
            _ => false,
        }
    }

    /// Takes the answer to the pending request and says how the call goes
    /// on.
    pub fn resume(self, reply: Reply) -> (next: Progress)
        requires
            self@.expects(reply@),
        ensures
            next@ == self@.after(reply@),
    {
        match (self, reply) {
            (Session::ThreadMode { target }, Reply::ErrorMode { succeeded, previous }) => {
                if succeeded {
                    clearing(target, Some(Guard { scope: Scope::Thread, previous }))
                } else {
                    Progress::Call(
                        Session::ThreadModeError { target, previous },
                        Request::GetLastError,
                    )
                }
            },
            (Session::ThreadModeError { target, previous }, Reply::LastError(code)) => {
                if code == ERROR_CALL_NOT_IMPLEMENTED {
                    Progress::Call(
                        Session::ProcessMode { target },
                        Request::SetErrorMode { mode: SEM_FAILCRITICALERRORS },
                    )
                } else {
                    clearing(target, Some(Guard { scope: Scope::Thread, previous }))
                }
            },
            (Session::ProcessMode { target }, Reply::ErrorMode { previous, .. }) => clearing(
                target,
                Some(Guard { scope: Scope::Process, previous }),
            ),
            (Session::Clearing { target, guard }, Reply::Cleared) => {
                let own = match target {
                    Operation::Own => true,
                    _ => false,
                };
                Progress::Call(Session::Running { own, guard }, Request::Run(target))
            },
            (Session::Running { guard, .. }, Reply::Module { succeeded, handle }) => launched(
                handle,
                succeeded,
                guard,
            ),
            (Session::Running { guard, .. }, Reply::Returned(value)) => launched(
                value,
                value != 0,
                guard,
            ),
            (Session::Failing { value, guard }, Reply::LastError(code)) => {
                if guard.is_none() && code == 0 {
                    Progress::Done(Ok(value))
                } else {
                    Progress::Call(
                        Session::Describing { code, guard },
                        Request::FormatMessage { code },
                    )
                }
            },
            (Session::Describing { code, guard }, Reply::Message(units)) => concluding(
                Err(win_error_string(code, units.as_slice())),
                guard,
            ),
            (Session::Restoring { outcome }, Reply::ErrorMode { .. }) => Progress::Done(outcome),
            _ => unreached(),
        }
    }
}

fn launched(value: usize, loaded: bool, guard: Option<Guard>) -> (next: Progress)
    ensures
        next@ == if guard is Some && loaded {
            conclude(Ok(value), guard)
        } else {
            ProgressView::Call(SessionView::Failing { value, guard }, RequestView::GetLastError)
        },
{
    if guard.is_some() && loaded {
        concluding(Ok(value), guard)
    } else {
        Progress::Call(Session::Failing { value, guard }, Request::GetLastError)
    }
}

/// The message for the error code `err`, given the system's text for it, if
/// it has one.
pub fn error_text(err: u32, message: Option<&str>) -> (text: String)
    ensures
        text@ == match message {
            None => "OS Error "@ + decimal(err as nat),
            Some(message) => trim_end(message@),
        },
{
    match message {
        None => {
            let mut text = String::from_str("OS Error ");
            text.append(decimal_text(err).as_str());
            text
        },
        Some(message) => trimmed(message),
    }
}

/// The message for the error code `err`, given the units that the system
/// wrote for it.
pub fn win_error_string(err: u32, formatted: &[u16]) -> (text: String)
    ensures
        text@ == error_string(err, formatted@),
{
    if formatted.len() == 0 {
        error_text(err, None)
    } else {
        let message = decode_wide_lossy(formatted);
        error_text(err, Some(message.as_str()))
    }
}

/// The message for a file name that holds a zero unit, given the name as
/// text.
pub fn open_failure_text(name: &str) -> (text: String)
    ensures
        text@ == open_failure(name@),
{
    let mut text = String::from_str("failed to open external `");
    text.append(name);
    text.append("`");
    text
}

/// Begins a checked call of `operation`: the last error is cleared, the
/// operation runs, and the last error is read.
pub fn check_for_errors_in(operation: Operation) -> (start: (Session, Request))
    ensures
        ProgressView::Call(start.0@, start.1@) == clear(operation@, None),
{
    (Session::Clearing { target: operation, guard: None }, Request::SetLastError { code: 0 })
}

/// Begins opening the library in the file `filename`, or the running
/// program itself where there is no name. A name with a zero unit in it is
/// refused: the loader would take it to end there.
pub fn open(filename: Option<&[u16]>) -> (start: Result<(Session, Request), String>)
    ensures
        match filename {
            None => start matches Ok((session, request)) && session@ == (SessionView::ThreadMode {
                target: OperationView::Own,
            }) && request@ == (RequestView::SetThreadErrorMode { mode: SEM_FAILCRITICALERRORS }),
            Some(name) => if nul_free_wide(name@) {
                start matches Ok((session, request)) && session@ == (SessionView::ThreadMode {
                    target: OperationView::Load { filename: name@.push(0) },
                }) && request@ == (RequestView::SetThreadErrorMode { mode: SEM_FAILCRITICALERRORS })
            } else {
                start matches Err(message) && message@ == open_failure(utf16_lossy(name@))
            },
        },
{
    let target = match filename {
        None => Operation::Own,
        Some(name) => match wide_c_string(name) {
            Some(terminated) => Operation::Load { filename: terminated },
            None => {
                return Err(open_failure_text(decode_wide_lossy(name).as_str()));
            },
        },
    };
    Ok((Session::ThreadMode { target }, Request::SetThreadErrorMode { mode: SEM_FAILCRITICALERRORS }))
}

/// The call that resolves the terminated symbol `name` in the library
/// `handle`.
pub fn symbol(handle: usize, name: Vec<u8>) -> (operation: Operation)
    ensures
        operation@ == (OperationView::Symbol { handle, symbol: name@ }),
{
    Operation::Symbol { handle, symbol: name }
}

/// The call that closes the library `handle`.
pub fn close(handle: usize) -> (operation: Operation)
    ensures
        operation@ == (OperationView::Close { handle }),
{
    Operation::Close { handle }
}

} // verus!
