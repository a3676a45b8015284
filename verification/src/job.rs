//! The [`Job`] state machine: a named handle to one external-process
//! invocation and its lifecycle [`Status`].

use vstd::prelude::*;
use vstd::string::StringExecFns;

verus! {

/// The decimal digit for a value between 0 and 9.
pub open spec fn decimal_digit(d: int) -> char
    recommends
        0 <= d < 10,
{
    if d == 0 {
        '0'
    } else if d == 1 {
        '1'
    } else if d == 2 {
        '2'
    } else if d == 3 {
        '3'
    } else if d == 4 {
        '4'
    } else if d == 5 {
        '5'
    } else if d == 6 {
        '6'
    } else if d == 7 {
        '7'
    } else if d == 8 {
        '8'
    } else {
        '9'
    }
}

/// The decimal digits of a non-negative value, most significant first.
pub open spec fn decimal_digits(n: int) -> Seq<char>
    recommends
        n >= 0,
    decreases n,
{
    if n < 10 {
        seq![decimal_digit(n)]
    } else {
        decimal_digits(n / 10) + seq![decimal_digit(n % 10)]
    }
}

/// The decimal rendering of an integer: its digits, preceded by `-` when
/// the value is negative.
pub open spec fn decimal(c: int) -> Seq<char> {
    if c < 0 {
        seq!['-'] + decimal_digits(-c)
    } else {
        decimal_digits(c)
    }
}

/// Relies on `i32`'s `to_string` (through its `core::fmt::Display`): the
/// decimal digits of the value, preceded by `-` when it is negative.
#[verifier::external_body]
fn decimal_string(code: i32) -> (s: String)
    ensures
        s@ == decimal(code as int),
{
    code.to_string()
}

/// tokio's handle to a spawned child process. The verifier treats it as
/// opaque: the library only stores it and hands it to the trusted calls.
#[verifier::external_type_specification]
#[verifier::external_body]
pub struct ExChild(tokio::process::Child);

/// The lifecycle stage of a [`Job`].
#[derive(Debug)]
pub enum Status {
    /// A process has been spawned and has not yet been observed to terminate;
    /// the live process handle is owned here.
    Running(Box<tokio::process::Child>),
    /// The process terminated with a non-zero exit code, or abnormally
    /// (by a signal, reported as code `-1`).
    Error(i32),
    /// The process terminated normally; the code is always `0`.
    Exit(i32),
    /// No process has been spawned yet.
    Standby,
}

/// The abstract lifecycle stage: [`Status`] with the process handle erased
/// and the codes widened to mathematical integers.
pub enum StatusView {
    Running,
    Error(int),
    Exit(int),
    Standby,
}

impl View for Status {
    type V = StatusView;

    open spec fn view(&self) -> StatusView {
        match self {
            Status::Running(_) => StatusView::Running,
            Status::Error(code) => StatusView::Error(*code as int),
            Status::Exit(code) => StatusView::Exit(*code as int),
            Status::Standby => StatusView::Standby,
        }
    }
}

/// A terminal stage: the process has ended and no further transition occurs.
pub open spec fn is_terminal(s: StatusView) -> bool {
    s is Exit || s is Error
}

/// The shape every recorded status has: a normal exit always carries code
/// `0`; a termination with any non-zero code is recorded as `Error`.
pub open spec fn status_wf(s: StatusView) -> bool {
    s is Exit ==> s == StatusView::Exit(0)
}

/// How an observed termination is recorded: a reported code of `0` is a
/// normal exit, a non-zero reported code `c` is `Error(c)`, and a missing
/// code (the process was ended by a signal) is `Error(-1)`.
pub open spec fn classify_exit(code: Option<i32>) -> StatusView {
    match code {
        Some(c) => if c == 0 {
            StatusView::Exit(0)
        } else {
            StatusView::Error(c as int)
        },
        None => StatusView::Error(-1),
    }
}

impl StatusView {
    /// The human-readable form of a status: the variant's name, with the
    /// code in parentheses for the terminal variants.
    pub open spec fn label(self) -> Seq<char> {
        match self {
            StatusView::Running => "Running"@,
            StatusView::Error(c) => "Error("@ + decimal(c) + ")"@,
            StatusView::Exit(c) => "Exit("@ + decimal(c) + ")"@,
            StatusView::Standby => "Standby"@,
        }
    }
}

impl Status {
    /// The human-readable form of this status, exactly as
    /// [`StatusView::label`] states it.
    pub fn describe(&self) -> (s: String)
        ensures
            s@ == self@.label(),
    {
        match self {
            Status::Running(_) => "Running".to_owned(),
            Status::Standby => "Standby".to_owned(),
            Status::Error(code) => {
                let mut s = "Error(".to_owned();
                s.append(decimal_string(*code).as_str());
                s.append(")");
                s
            },
            Status::Exit(code) => {
                let mut s = "Exit(".to_owned();
                s.append(decimal_string(*code).as_str());
                s.append(")");
                s
            },
        }
    }

    /// The terminal status recorded for an observed termination,
    /// exactly as [`classify_exit`] states it.
    pub fn from_exit_code(code: Option<i32>) -> (status: Status)
        ensures
            status@ == classify_exit(code),
            is_terminal(status@),
            status_wf(status@),
    {
        match code {
            Some(c) => if c == 0 {
                Status::Exit(0)
            } else {
                Status::Error(c)
            },
            None => Status::Error(-1),
        }
    }
}

/// A named handle to one external-process invocation: an identity fixed at
/// construction and the current lifecycle [`Status`].
#[derive(Debug)]
pub struct Job {
    /// Name of the job.
    name: String,
    /// Path to the executable.
    path: String,
    /// Status of the job.
    status: Status,
}

/// What a [`Job`] is abstractly: its identity and its lifecycle stage.
pub struct JobView {
    pub name: Seq<char>,
    pub path: Seq<char>,
    pub status: StatusView,
}

impl View for Job {
    type V = JobView;

    closed spec fn view(&self) -> JobView {
        JobView { name: self.name@, path: self.path@, status: self.status@ }
    }
}

/// Relies on `tokio::process::Command`: spawns the executable at `path` with
/// no arguments, its standard streams connected to null sinks (`Stdio::null`,
/// reached through async-process's re-export), and the process set to be
/// killed when the handle is dropped while still alive. A failure to spawn is
/// unrecoverable here and aborts, as the embedding treats a job that cannot
/// come into being as a fatal condition.
#[verifier::external_body]
fn spawn_child(path: &String) -> (child: Box<tokio::process::Child>) {
    let mut cmd = tokio::process::Command::new(path);
    cmd.kill_on_drop(true)
        .stdin(async_process::Stdio::null())
        .stdout(async_process::Stdio::null())
        .stderr(async_process::Stdio::null());
    Box::new(cmd.spawn().expect("Failed to spawn process"))
}

/// Relies on `tokio::process::Child::try_wait`: returns `None` while the
/// process is still running, and once it has terminated, `Some` of the exit
/// status's `code()` — the exit code if the process exited normally, `None`
/// inside when it was ended by a signal. A failure of the OS-level wait
/// itself is unrecoverable here and aborts, as the embedding treats it so.
#[verifier::external_body]
fn try_wait_child(child: &mut Box<tokio::process::Child>) -> (r: Option<Option<i32>>) {
    match child.try_wait().expect("Failed to wait on child") {
        Some(status) => Some(status.code()),
        None => None,
    }
}

/// Relies on `tokio::process::Child::try_wait`, asked again until the OS
/// reports termination: the blocking wait of the process facility. (The
/// handle's own blocking wait is an async call, which cannot be awaited
/// here.) Returns the exit status's `code()` — the exit code if the process
/// exited normally, `None` if it was ended by a signal. A failure of the
/// OS-level wait itself is unrecoverable here and aborts.
#[verifier::external_body]
fn wait_child(child: &mut Box<tokio::process::Child>) -> (outcome: Option<i32>) {
    loop {
        if let Some(status) = child.try_wait().expect("Failed to wait on child") {
            return status.code();
        }
        std::hint::spin_loop();
    }
}

impl Job {
    /// Pure construction: stores the identity verbatim and begins in
    /// [`Standby`](Status::Standby). Touches neither filesystem nor process.
    pub fn new(name: &str, path: &str) -> (job: Job)
        ensures
            job@.name == name@,
            job@.path == path@,
            job@.status == StatusView::Standby,
    {
        Job { name: name.to_owned(), path: path.to_owned(), status: Status::Standby }
    }

    /// Spawns the job's executable and records the running handle. Any
    /// previous status is overwritten; a handle still held there is dropped,
    /// which kills its process.
    pub fn start(&mut self)
        ensures
            final(self)@.name == old(self)@.name,
            final(self)@.path == old(self)@.path,
            final(self)@.status == StatusView::Running,
    {
        let child = spawn_child(&self.path);
        self.status = Status::Running(child);
    }

    /// Blocks until the running process terminates, records the terminal
    /// status [`classify_exit`] gives for the observed outcome, and releases
    /// the process handle. Called in any other state than `Running`, it
    /// rejects the call with the failure code `-1` and changes nothing;
    /// `Ok(())` reports only that the waiting itself succeeded, whether the
    /// job ended in `Exit` or in `Error`.
    pub fn wait(&mut self) -> (r: Result<(), i32>)
        ensures
            final(self)@.name == old(self)@.name,
            final(self)@.path == old(self)@.path,
            old(self)@.status is Running ==> r == Ok::<(), i32>(()) && is_terminal(
                final(self)@.status,
            ) && status_wf(final(self)@.status),
            !(old(self)@.status is Running) ==> r == Err::<(), i32>(-1i32) && final(self)@ == old(
                self,
            )@,
    {
        let mut taken = Status::Standby;
        core::mem::swap(&mut taken, &mut self.status);
        match taken {
            Status::Running(mut child) => {
                let outcome = wait_child(&mut child);
                self.status = Status::from_exit_code(outcome);
                Ok(())
            },
            other => {
                self.status = other;
                Err(-1)
            },
        }
    }

    /// Checks without blocking whether the running process has terminated.
    /// While it is still alive, returns `Ok(false)` and changes nothing, so
    /// the call is safe to repeat; once it has terminated, records the same
    /// terminal status [`wait`](Job::wait) would and returns `Ok(true)`.
    /// Called in any other state than `Running`, it rejects the call with the
    /// failure code `-1` and changes nothing.
    pub fn poll(&mut self) -> (r: Result<bool, i32>)
        ensures
            final(self)@.name == old(self)@.name,
            final(self)@.path == old(self)@.path,
            old(self)@.status is Running <==> r is Ok,
            !(old(self)@.status is Running) ==> r == Err::<bool, i32>(-1i32) && final(self)@ == old(
                self,
            )@,
            r == Ok::<bool, i32>(false) ==> final(self)@ == old(self)@,
            r == Ok::<bool, i32>(true) ==> is_terminal(final(self)@.status) && status_wf(
                final(self)@.status,
            ),
    {
        let mut taken = Status::Standby;
        core::mem::swap(&mut taken, &mut self.status);
        match taken {
            Status::Running(mut child) => {
                match try_wait_child(&mut child) {
                    Some(outcome) => {
                        self.status = Status::from_exit_code(outcome);
                        Ok(true)
                    },
                    None => {
                        self.status = Status::Running(child);
                        Ok(false)
                    },
                }
            },
            other => {
                self.status = other;
                Err(-1)
            },
        }
    }

    /// Returns the name of the job.
    pub fn get_name(&self) -> (name: &String)
        ensures
            name@ == self@.name,
    {
        &self.name
    }

    /// Returns the path of the job.
    pub fn get_path(&self) -> (path: &String)
        ensures
            path@ == self@.path,
    {
        &self.path
    }

    /// Returns the status of the job.
    pub fn get_status(&self) -> (status: &Status)
        ensures
            status@ == self@.status,
    {
        &self.status
    }
}

} // verus!
