//! The serial line broker: what its reader and its writer do with the
//! outcome of each read and each write.

use vstd::prelude::*;

verus! {

/// How a read of one line from the serial line ended.
#[derive(Debug)]
pub enum ReadOutcome {
    /// The read returned this text; it is empty at the end of the stream.
    Line(String),
    /// Nothing came in time.
    TimedOut,
    /// Any other error.
    Failed,
}

/// What the reader does next.
#[derive(Debug)]
pub enum ListenerAction {
    /// Hand the line to the subscribers, then read on.
    Publish(String),
    /// Read on.
    Continue,
    /// Stop quietly: the host has cancelled.
    Stop,
    /// Stop with an error: the serial line has failed, which is fatal.
    Fail,
}

/// How a write of one message to the serial line ended.
#[derive(Clone, Copy, Debug, PartialEq, Eq, Structural)]
pub enum WriteOutcome {
    /// The message was written and flushed.
    Written,
    /// The write was interrupted before anything was written.
    Interrupted,
    /// Any other error.
    Failed,
}

/// What the writer does next.
#[derive(Clone, Copy, Debug, PartialEq, Eq, Structural)]
pub enum WriterAction {
    /// Take the next message from the queue.
    Next,
    /// Write the same message again.
    Retry,
    /// Stop quietly: the host has cancelled.
    Stop,
    /// Retire and cancel the broker: the serial line has failed.
    Retire,
}

/// What the reader does after a read. Cancellation comes first. A line that
/// is not empty is published, a timeout is passed over, and any other error
/// ends the broker.
pub fn run_listener(cancelled: bool, outcome: ReadOutcome) -> (action: ListenerAction)
    ensures
        action == if cancelled {
            ListenerAction::Stop
        } else {
            match outcome {
                ReadOutcome::Line(line) => if line@.len() > 0 {
                    ListenerAction::Publish(line)
                } else {
                    ListenerAction::Continue
                },
                ReadOutcome::TimedOut => ListenerAction::Continue,
                ReadOutcome::Failed => ListenerAction::Fail,
            }
        },
{
    if cancelled {
        return ListenerAction::Stop;
    }
    match outcome {
        ReadOutcome::Line(line) => {
            if line.as_str().is_empty() {
                ListenerAction::Continue
            } else {
                ListenerAction::Publish(line)
            }
        },
        ReadOutcome::TimedOut => ListenerAction::Continue,
        ReadOutcome::Failed => ListenerAction::Fail,
    }
}

/// What the writer does after a write. Cancellation comes first. An
/// interrupted write is tried again, and any other error retires the
/// writer.
pub fn run_writer(cancelled: bool, outcome: WriteOutcome) -> (action: WriterAction)
    ensures
        action == if cancelled {
            WriterAction::Stop
        } else {
            match outcome {
                WriteOutcome::Written => WriterAction::Next,
                WriteOutcome::Interrupted => WriterAction::Retry,
                WriteOutcome::Failed => WriterAction::Retire,
            }
        },
{
    if cancelled {
        return WriterAction::Stop;
    }
    match outcome {
        WriteOutcome::Written => WriterAction::Next,
        WriteOutcome::Interrupted => WriterAction::Retry,
        WriteOutcome::Failed => WriterAction::Retire,
    }
}

} // verus!
