//! The watcher of the source's control channel.
//!
//! It runs beside the frame-processing session and shares nothing with it.
//! An error or the end of the stream ends the watch; nothing restarts it,
//! and the session is not interrupted.

use vstd::prelude::*;

verus! {

/// What arrived on the control channel.
#[derive(Clone, Copy, Debug, PartialEq, Eq, Structural)]
pub enum ControlMessage {
    /// The source reported an error.
    Error,
    /// The source reported the end of the stream.
    EndOfStream,
    /// Anything else: state changes, warnings, tags.
    Other,
}

/// Why the watch ended.
#[derive(Clone, Copy, Debug, PartialEq, Eq, Structural)]
pub enum Fatal {
    SourceError,
    EndOfStream,
}

/// What the watcher does after a message.
#[derive(Clone, Copy, Debug, PartialEq, Eq, Structural)]
pub enum Verdict {
    /// Wait for the next message.
    KeepWatching,
    /// Log the condition and end the watch.
    Stop(Fatal),
    /// The watch has ended already; the message is ignored.
    Ended,
}

/// The fatal condition that `message` stands for, if it stands for one.
pub open spec fn fatal_of(message: ControlMessage) -> Option<Fatal> {
    match message {
        ControlMessage::Error => Some(Fatal::SourceError),
        ControlMessage::EndOfStream => Some(Fatal::EndOfStream),
        ControlMessage::Other => None,
    }
}

/// The watcher after `message`, and its verdict. `stopped` tells whether
/// the watch had ended before.
pub open spec fn watch_step(stopped: bool, message: ControlMessage) -> (bool, Verdict) {
    if stopped {
        (true, Verdict::Ended)
    } else {
        match fatal_of(message) {
            Some(fatal) => (true, Verdict::Stop(fatal)),
            None => (false, Verdict::KeepWatching),
        }
    }
}

/// The watcher of the control channel.
#[derive(Clone, Copy, Debug)]
pub struct Monitor {
    stopped: bool,
}

impl View for Monitor {
    type V = bool;

    /// Whether the watch has ended.
    closed spec fn view(&self) -> bool {
        self.stopped
    }
}

impl Monitor {
    /// A watcher that has seen nothing yet.
    pub fn new() -> (m: Monitor)
        ensures
            !m@,
    {
        Monitor { stopped: false }
    }

    /// Tells whether the watch has ended.
    pub fn stopped(&self) -> (b: bool)
        ensures
            b == self@,
    {
        self.stopped
    }

    /// Takes one message from the control channel.
    ///
    /// The first error or end of stream ends the watch and is handed out
    /// to be logged. Other messages are passed over. Once the watch has
    /// ended it stays ended.
    pub fn on_message(&mut self, message: ControlMessage) -> (verdict: Verdict)
        ensures
            (final(self)@, verdict) == watch_step(old(self)@, message),
    {
        if self.stopped {
            return Verdict::Ended;
        }
        match message {
            ControlMessage::Error => {
                self.stopped = true;
                Verdict::Stop(Fatal::SourceError)
            },
            ControlMessage::EndOfStream => {
                self.stopped = true;
                Verdict::Stop(Fatal::EndOfStream)
            },
            ControlMessage::Other => Verdict::KeepWatching,
        }
    }
}

/// A watch that has ended stays ended, and the watch ends exactly on the
/// first fatal message.
pub proof fn lemma_watch_ends_once(stopped: bool, message: ControlMessage)
    ensures
        stopped ==> watch_step(stopped, message) == (true, Verdict::Ended),
        !stopped ==> (watch_step(stopped, message).0 <==> fatal_of(message) is Some),
        watch_step(stopped, message).1 is Stop <==> !stopped && fatal_of(message) is Some,
{
}

} // verus!
