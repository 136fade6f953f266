//! The vocabulary of sysfs steps: what a decision procedure asks the caller
//! to do next, and what the caller observed when doing it.

use vstd::prelude::*;

verus! {

/// One step that a decision procedure asks its caller to perform.
#[derive(Debug)]
pub enum SysfsAction {
    /// Read the whole content of the file at `path`.
    Read { path: String },
    /// Open the file at `path` for writing (truncating, not creating) and write `value`.
    Write { path: String, value: String },
    /// Write `value` as the whole content of the file at `path`, creating
    /// the file when it is missing.
    Replace { path: String, value: String },
    /// Tell whether something exists at `path`.
    Probe { path: String },
    /// Wait `ms` milliseconds, then report the time elapsed since the operation began.
    Sleep { ms: u64 },
    /// The operation is complete; its outcome is held by the procedure.
    Done,
}

/// Why a write failed: opening the file, or writing and flushing it.
#[derive(Debug)]
pub enum WriteFailure {
    Open(String),
    Write(String),
}

/// What the caller observed when performing the last requested step.
#[derive(Debug)]
pub enum SysfsEvent {
    /// The first call: nothing has been performed yet.
    Start,
    /// The outcome of a `Read`: the content, or the message of the I/O error.
    ReadDone(Result<String, String>),
    /// The outcome of a `Write` or a `Replace`.
    WriteDone(Result<(), WriteFailure>),
    /// The outcome of a `Probe`: whether the path exists.
    Probed(bool),
    /// A `Sleep` has passed; `elapsed_ms` milliseconds have gone by since the
    /// operation began.
    Slept { elapsed_ms: u64 },
}

pub enum SysfsActionView {
    Read { path: Seq<char> },
    Write { path: Seq<char>, value: Seq<char> },
    Replace { path: Seq<char>, value: Seq<char> },
    Probe { path: Seq<char> },
    Sleep { ms: u64 },
    Done,
}

pub enum WriteFailureView {
    Open(Seq<char>),
    Write(Seq<char>),
}

pub enum SysfsEventView {
    Start,
    ReadDone(Result<Seq<char>, Seq<char>>),
    WriteDone(Result<(), WriteFailureView>),
    Probed(bool),
    Slept { elapsed_ms: u64 },
}

impl View for SysfsAction {
    type V = SysfsActionView;

    open spec fn view(&self) -> SysfsActionView {
        match self {
            SysfsAction::Read { path } => SysfsActionView::Read { path: path@ },
            SysfsAction::Write { path, value } => SysfsActionView::Write {
                path: path@,
                value: value@,
            },
            SysfsAction::Replace { path, value } => SysfsActionView::Replace {
                path: path@,
                value: value@,
            },
            SysfsAction::Probe { path } => SysfsActionView::Probe { path: path@ },
            SysfsAction::Sleep { ms } => SysfsActionView::Sleep { ms: *ms },
            SysfsAction::Done => SysfsActionView::Done,
        }
    }
}

impl View for WriteFailure {
    type V = WriteFailureView;

    open spec fn view(&self) -> WriteFailureView {
        match self {
            WriteFailure::Open(m) => WriteFailureView::Open(m@),
            WriteFailure::Write(m) => WriteFailureView::Write(m@),
        }
    }
}

impl View for SysfsEvent {
    type V = SysfsEventView;

    open spec fn view(&self) -> SysfsEventView {
        match self {
            SysfsEvent::Start => SysfsEventView::Start,
            SysfsEvent::ReadDone(r) => SysfsEventView::ReadDone(
                match r {
                    Ok(c) => Ok(c@),
                    Err(e) => Err(e@),
                },
            ),
            SysfsEvent::WriteDone(r) => SysfsEventView::WriteDone(
                match r {
                    Ok(()) => Ok(()),
                    Err(f) => Err(f@),
                },
            ),
            SysfsEvent::Probed(b) => SysfsEventView::Probed(*b),
            SysfsEvent::Slept { elapsed_ms } => SysfsEventView::Slept { elapsed_ms: *elapsed_ms },
        }
    }
}

/// The message of a write failure, whichever stage failed.
pub open spec fn failure_message(f: WriteFailureView) -> Seq<char> {
    match f {
        WriteFailureView::Open(m) => m,
        WriteFailureView::Write(m) => m,
    }
}

impl WriteFailure {
    /// The message of this failure, whichever stage failed.
    pub fn message(&self) -> (r: String)
        ensures
            r@ == failure_message(self@),
    {
        match self {
            WriteFailure::Open(m) => m.clone(),
            WriteFailure::Write(m) => m.clone(),
        }
    }
}

} // verus!
