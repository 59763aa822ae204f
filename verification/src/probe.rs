//! Classifying a process by the state tag of its status record.
//!
//! A status record is one line: the process id, the name of the command in
//! parentheses, the state tag, and more fields.

use crate::fields::{field, field_text};
use crate::text::{decimal, decimal_text, find_last, last_index, str_eq, to_chars};
use vstd::prelude::*;
use vstd::string::*;

verus! {

/// What the operating system says of a process id.
#[derive(Clone, Debug, PartialEq, Eq)]
pub enum ProcessStatus {
    /// No such process: it never existed, or it is gone.
    NotStarted,
    /// Running, sleeping or waiting for the disk.
    Running,
    /// Exited and not yet reaped.
    Zombie,
    /// Any other state, with its tag as the record gave it.
    Unknown(String),
}

/// A [`ProcessStatus`] with its tag as plain text.
pub enum StatusView {
    NotStarted,
    Running,
    Zombie,
    Unknown(Seq<char>),
}

impl View for ProcessStatus {
    type V = StatusView;

    open spec fn view(&self) -> StatusView {
        match self {
            ProcessStatus::NotStarted => StatusView::NotStarted,
            ProcessStatus::Running => StatusView::Running,
            ProcessStatus::Zombie => StatusView::Zombie,
            ProcessStatus::Unknown(tag) => StatusView::Unknown(tag@),
        }
    }
}

/// What came of reading the status record of a process.
#[derive(Clone, Debug, PartialEq, Eq)]
pub enum StatRead {
    /// There is no record: no such process.
    Missing,
    /// The record could not be read, for the reason given.
    Failed(String),
    /// The record as it was read.
    Contents(String),
}

/// A [`StatRead`] with its text as plain text.
pub enum StatReadView {
    Missing,
    Failed(Seq<char>),
    Contents(Seq<char>),
}

impl View for StatRead {
    type V = StatReadView;

    open spec fn view(&self) -> StatReadView {
        match self {
            StatRead::Missing => StatReadView::Missing,
            StatRead::Failed(reason) => StatReadView::Failed(reason@),
            StatRead::Contents(text) => StatReadView::Contents(text@),
        }
    }
}

/// Why a process could not be classified.
#[derive(Clone, Debug, PartialEq, Eq)]
pub enum ProbeError {
    /// The record of `pid` exists and could not be read.
    Unreadable { pid: u32, reason: String },
    /// The record of `pid` holds no state tag: no closing parenthesis, or no
    /// field behind it.
    NoState { pid: u32 },
}

/// A [`ProbeError`] with its text as plain text.
pub enum ProbeErrorView {
    Unreadable { pid: u32, reason: Seq<char> },
    NoState { pid: u32 },
}

impl View for ProbeError {
    type V = ProbeErrorView;

    open spec fn view(&self) -> ProbeErrorView {
        match self {
            ProbeError::Unreadable { pid, reason } => ProbeErrorView::Unreadable {
                pid: *pid,
                reason: reason@,
            },
            ProbeError::NoState { pid } => ProbeErrorView::NoState { pid: *pid },
        }
    }
}

/// Where the status record of `pid` lies.
pub open spec fn stat_path_text(pid: u32) -> Seq<char> {
    "/proc/"@ + decimal_text(pid as nat) + "/stat"@
}

/// The state tag of a status record: the first field behind the last
/// closing parenthesis, which ends the name of the command. A name may hold
/// white space and parentheses of its own; the fields behind it hold none.
pub open spec fn state_tag(record: Seq<char>) -> Option<Seq<char>> {
    if last_index(record, ')') < 0 {
        None
    } else {
        field_text(record.subrange(last_index(record, ')') + 1, record.len() as int), 0)
    }
}

/// Finds the state tag of a status record.
pub fn read_state_tag(record: &str) -> (tag: Option<String>)
    ensures
        match tag {
            Some(text) => state_tag(record@) == Some(text@),
            None => state_tag(record@) is None,
        },
{
    let chars = to_chars(record);
    let n = chars.len();
    assert(chars@.take(n as int) =~= record@);
    match find_last(&chars, n, ')') {
        Some(i) => field(record.substring_char(i + 1, n), 0),
        None => None,
    }
}

impl ProbeError {
    /// The error in words.
    pub open spec fn text(v: ProbeErrorView) -> Seq<char> {
        match v {
            ProbeErrorView::Unreadable { pid, reason } => "failed to read "@ + stat_path_text(pid)
                + ": "@ + reason,
            ProbeErrorView::NoState { pid } => "no state in "@ + stat_path_text(pid),
        }
    }

    /// The error in words.
    pub fn message(&self) -> (text: String)
        ensures
            text@ == ProbeError::text(self@),
    {
        match self {
            ProbeError::Unreadable { pid, reason } => {
                let mut text = String::from_str("failed to read ");
                text.append(stat_path(*pid).as_str());
                text.append(": ");
                text.append(reason.as_str());
                text
            },
            ProbeError::NoState { pid } => {
                let mut text = String::from_str("no state in ");
                text.append(stat_path(*pid).as_str());
                text
            },
        }
    }
}

/// The path of the status record of `pid`.
pub fn stat_path(pid: u32) -> (path: String)
    ensures
        path@ == stat_path_text(pid),
{
    let mut path = String::from_str("/proc/");
    path.append(decimal(pid as u64).as_str());
    path.append("/stat");
    path
}

impl ProcessStatus {
    /// The status that a state tag stands for.
    pub open spec fn of_tag(tag: Seq<char>) -> StatusView {
        if tag == "R"@ || tag == "S"@ || tag == "D"@ {
            StatusView::Running
        } else if tag == "Z"@ {
            StatusView::Zombie
        } else {
            StatusView::Unknown(tag)
        }
    }

    /// The status that a read of the record of `pid` shows.
    pub open spec fn of_read(pid: u32, read: StatReadView) -> Result<StatusView, ProbeErrorView> {
        match read {
            StatReadView::Missing => Ok(StatusView::NotStarted),
            StatReadView::Failed(reason) => Err(ProbeErrorView::Unreadable { pid, reason }),
            StatReadView::Contents(text) => match state_tag(text) {
                Some(tag) => Ok(ProcessStatus::of_tag(tag)),
                None => Err(ProbeErrorView::NoState { pid }),
            },
        }
    }

    /// The status in words, as `status` answers it.
    pub open spec fn label_text(v: StatusView) -> Seq<char> {
        match v {
            StatusView::NotStarted => "NotStarted"@,
            StatusView::Running => "Running"@,
            StatusView::Zombie => "Zombie"@,
            StatusView::Unknown(tag) => "Unknown("@ + tag + ")"@,
        }
    }

    /// The status that a state tag stands for.
    pub fn from_tag(tag: &str) -> (status: ProcessStatus)
        ensures
            status@ == ProcessStatus::of_tag(tag@),
    {
        if str_eq(tag, "R") || str_eq(tag, "S") || str_eq(tag, "D") {
            ProcessStatus::Running
        } else if str_eq(tag, "Z") {
            ProcessStatus::Zombie
        } else {
            ProcessStatus::Unknown(String::from_str(tag))
        }
    }

    /// Classifies process `pid` from what reading its status record gave. A
    /// missing record is an answer, not an error.
    pub fn get(pid: u32, read: &StatRead) -> (status: Result<ProcessStatus, ProbeError>)
        ensures
            match status {
                Ok(s) => ProcessStatus::of_read(pid, read@) == Ok::<StatusView, ProbeErrorView>(s@),
                Err(e) => ProcessStatus::of_read(pid, read@) == Err::<StatusView, ProbeErrorView>(
                    e@,
                ),
            },
    {
        match read {
            StatRead::Missing => Ok(ProcessStatus::NotStarted),
            StatRead::Failed(reason) => Err(ProbeError::Unreadable { pid, reason: reason.clone() }),
            StatRead::Contents(text) => match read_state_tag(text.as_str()) {
                Some(tag) => Ok(ProcessStatus::from_tag(tag.as_str())),
                None => Err(ProbeError::NoState { pid }),
            },
        }
    }

    /// The status in words, as `status` answers it.
    pub fn to_string(&self) -> (label: String)
        ensures
            label@ == ProcessStatus::label_text(self@),
    {
        match self {
            ProcessStatus::NotStarted => String::from_str("NotStarted"),
            ProcessStatus::Running => String::from_str("Running"),
            ProcessStatus::Zombie => String::from_str("Zombie"),
            ProcessStatus::Unknown(tag) => {
                let mut label = String::from_str("Unknown(");
                label.append(tag.as_str());
                label.append(")");
                label
            },
        }
    }
}

} // verus!
