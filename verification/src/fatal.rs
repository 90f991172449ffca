//! Failures that end a run at once: the tasks cannot be read, the output of a
//! job cannot be read or written, or the queue of ended jobs is broken. They
//! are not failures of a job and never enter the tally; the run ends with the
//! status 255 and one line on standard error.

use vstd::prelude::*;
use vstd::string::*;

verus! {

/// A failure that ends the run at once. Each holds what the system said.
#[derive(Clone, Debug, PartialEq, Eq)]
pub enum Fatal {
    /// The next task could not be read from standard input.
    TaskInput(String),
    /// What a job wrote could not be read.
    OutputRead(String),
    /// Output could not be written.
    OutputWrite(String),
    /// An ended job could not be put on the queue.
    QueueSend(String),
    /// No ended job could be taken from the queue.
    QueueReceive(String),
}

impl Fatal {
    /// What the failure is called in its message.
    pub open spec fn label(&self) -> Seq<char> {
        match self {
            Fatal::TaskInput(_) => "error reading standard input"@,
            Fatal::OutputRead(_) => "read error"@,
            Fatal::OutputWrite(_) => "write error"@,
            Fatal::QueueSend(_) => "send error"@,
            Fatal::QueueReceive(_) => "recv error"@,
        }
    }

    /// What the system said.
    pub open spec fn cause(&self) -> Seq<char> {
        match self {
            Fatal::TaskInput(cause) => cause@,
            Fatal::OutputRead(cause) => cause@,
            Fatal::OutputWrite(cause) => cause@,
            Fatal::QueueSend(cause) => cause@,
            Fatal::QueueReceive(cause) => cause@,
        }
    }

    /// The line written for the failure: what failed, a colon, and what the
    /// system said.
    pub open spec fn text(&self) -> Seq<char> {
        self.label() + ": "@ + self.cause() + "\n"@
    }

    /// The line to write on standard error before the run ends.
    pub fn message(&self) -> (r: String)
        ensures
            r@ == self.text(),
    {
        let mut acc = String::new();
        match self {
            Fatal::TaskInput(cause) => {
                acc.append("error reading standard input");
                acc.append(": ");
                acc.append(cause.as_str());
            },
            Fatal::OutputRead(cause) => {
                acc.append("read error");
                acc.append(": ");
                acc.append(cause.as_str());
            },
            Fatal::OutputWrite(cause) => {
                acc.append("write error");
                acc.append(": ");
                acc.append(cause.as_str());
            },
            Fatal::QueueSend(cause) => {
                acc.append("send error");
                acc.append(": ");
                acc.append(cause.as_str());
            },
            Fatal::QueueReceive(cause) => {
                acc.append("recv error");
                acc.append(": ");
                acc.append(cause.as_str());
            },
        }
        acc.append("\n");
        acc
    }
}

} // verus!
