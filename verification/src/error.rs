//! The node's error kinds.

use vstd::prelude::*;
use crate::text::{decimal, decimal_text};

verus! {

/// Why an operation of the node failed. Each kind carries a message for people;
/// `ShellCommand` also carries the exit code of the tool that failed.
#[derive(Debug)]
pub enum NodeError {
    /// Reading or writing a file failed.
    Io(String),
    /// A document could not be written or read back.
    Json(String),
    /// A network request failed.
    Http(String),
    /// The persisted node state could not be locked, read or written.
    State(String),
    /// A malformed proposal file name, a failed rename, a watcher that would not start.
    Queue(String),
    /// The engine could not be invoked, or the proposal file is missing.
    Execution(String),
    /// A vertex is not in the ledger.
    Dag(String),
    /// A peer is unreachable or answered outside the 2xx range.
    Federation(String),
    /// A proposal was rejected before execution.
    Validation(String),
    /// A delegated tool ended with a non-zero exit code.
    ShellCommand { message: String, code: i32 },
    /// The configuration is unusable.
    Config(String),
}

pub type NodeResult<T> = Result<T, NodeError>;

impl NodeError {
    /// The words that announce the kind of the error.
    pub open spec fn heading(&self) -> Seq<char> {
        match self {
            NodeError::Io(_) => "IO error: "@,
            NodeError::Json(_) => "JSON error: "@,
            NodeError::Http(_) => "HTTP error: "@,
            NodeError::State(_) => "State error: "@,
            NodeError::Queue(_) => "Queue error: "@,
            NodeError::Execution(_) => "Execution error: "@,
            NodeError::Dag(_) => "DAG error: "@,
            NodeError::Federation(_) => "Federation error: "@,
            NodeError::Validation(_) => "Validation error: "@,
            NodeError::ShellCommand { .. } => "Shell command error: "@,
            NodeError::Config(_) => "Configuration error: "@,
        }
    }

    /// The message that the error carries.
    pub open spec fn detail(&self) -> Seq<char> {
        match self {
            NodeError::Io(m) => m@,
            NodeError::Json(m) => m@,
            NodeError::Http(m) => m@,
            NodeError::State(m) => m@,
            NodeError::Queue(m) => m@,
            NodeError::Execution(m) => m@,
            NodeError::Dag(m) => m@,
            NodeError::Federation(m) => m@,
            NodeError::Validation(m) => m@,
            NodeError::ShellCommand { message, .. } => message@,
            NodeError::Config(m) => m@,
        }
    }

    /// The error as one line for people: the kind, the message and, for a tool
    /// that failed, its exit code.
    pub open spec fn text(&self) -> Seq<char> {
        match self {
            NodeError::ShellCommand { code, .. } => self.heading() + self.detail() + ", code: "@
                + decimal_text(*code as int),
            _ => self.heading() + self.detail(),
        }
    }

    /// Writes the error as one line for people.
    pub fn message(&self) -> (line: String)
        ensures
            line@ == self.text(),
    {
        let (heading, detail) = match self {
            NodeError::Io(m) => ("IO error: ", m),
            NodeError::Json(m) => ("JSON error: ", m),
            NodeError::Http(m) => ("HTTP error: ", m),
            NodeError::State(m) => ("State error: ", m),
            NodeError::Queue(m) => ("Queue error: ", m),
            NodeError::Execution(m) => ("Execution error: ", m),
            NodeError::Dag(m) => ("DAG error: ", m),
            NodeError::Federation(m) => ("Federation error: ", m),
            NodeError::Validation(m) => ("Validation error: ", m),
            NodeError::ShellCommand { message, .. } => ("Shell command error: ", message),
            NodeError::Config(m) => ("Configuration error: ", m),
        };
        let mut line = String::from_str(heading);
        line.append(detail.as_str());
        match self {
            NodeError::ShellCommand { code, .. } => {
                line.append(", code: ");
                line.append(decimal(*code).as_str());
            },
            _ => {},
        }
        line
    }
}

} // verus!
