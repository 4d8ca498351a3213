//! The command protocol between the host and one plugin worker.
//!
//! Every request is pushed into the worker's bounded queue and answered on a
//! single-use reply destination. One worker processes its queue front to
//! back, one command at a time, so commands sent to the same worker are
//! observed and answered in send order.

use vstd::prelude::*;

verus! {

/// The kind of media a listing request asks for. The host never interprets
/// the code; it is defined by the plugin interface contract.
#[derive(Clone, Copy, Debug, PartialEq, Eq, Structural)]
pub struct MediaType {
    pub code: u64,
}

/// A catalog item, opaque to the host.
#[derive(Debug, PartialEq, Eq)]
pub struct Media {
    pub payload: String,
}

/// A sub-unit of a catalog item, opaque to the host.
#[derive(Debug, PartialEq, Eq)]
pub struct Unit {
    pub payload: String,
}

/// A downloadable asset of a unit, opaque to the host.
#[derive(Debug, PartialEq, Eq)]
pub struct Asset {
    pub payload: String,
}

/// What a plugin declares it can do, opaque to the host.
#[derive(Debug, PartialEq, Eq)]
pub struct ProviderCapabilities {
    pub payload: String,
}

impl Clone for ProviderCapabilities {
    fn clone(&self) -> (r: Self)
        ensures
            r == *self,
    {
        ProviderCapabilities { payload: self.payload.clone() }
    }
}

/// One typed request routed to a plugin worker.
#[derive(Debug, PartialEq, Eq)]
pub enum Command {
    FetchMediaList { kind: MediaType, query: String },
    FetchUnits { media_id: String },
    FetchAssets { unit_id: String },
    GetCapabilities,
    GetAllowedHosts,
}

/// Most commands that may wait in one worker's queue at a time.
pub const COMMAND_QUEUE_CAPACITY: usize = 64;

/// The bounded first-in-first-out queue in front of one plugin worker.
pub struct CommandQueue {
    items: Vec<Command>,
}

impl View for CommandQueue {
    type V = Seq<Command>;

    closed spec fn view(&self) -> Seq<Command> {
        self.items@
    }
}

impl CommandQueue {
    /// The queue never holds more than its capacity.
    pub open spec fn inv(&self) -> bool {
        self@.len() <= COMMAND_QUEUE_CAPACITY
    }

    pub fn new() -> (q: CommandQueue)
        ensures
            q@ =~= Seq::<Command>::empty(),
            q.inv(),
    {
        CommandQueue { items: Vec::new() }
    }

    pub fn len(&self) -> (n: usize)
        ensures
            n == self@.len(),
    {
        self.items.len()
    }

    /// Send a command: appended at the back when the queue has room, handed
    /// back to the caller when it is full.
    pub fn push(&mut self, c: Command) -> (r: Result<(), Command>)
        requires
            old(self).inv(),
        ensures
            final(self).inv(),
            old(self)@.len() < COMMAND_QUEUE_CAPACITY ==> r is Ok && final(self)@ == old(
                self,
            )@.push(c),
            old(self)@.len() >= COMMAND_QUEUE_CAPACITY ==> final(self)@ == old(self)@ && (
            r matches Err(d) && d == c),
    {
        if self.items.len() < COMMAND_QUEUE_CAPACITY {
            self.items.push(c);
            Ok(())
        } else {
            Err(c)
        }
    }

    /// Receive the oldest queued command, if any.
    pub fn pop(&mut self) -> (r: Option<Command>)
        requires
            old(self).inv(),
        ensures
            final(self).inv(),
            old(self)@.len() == 0 ==> r is None && final(self)@ == old(self)@,
            old(self)@.len() > 0 ==> (r matches Some(c) && c == old(self)@[0]) && final(self)@
                == old(self)@.drop_first(),
    {
        if self.items.len() == 0 {
            None
        } else {
            let c = self.items.remove(0);
            proof {
                assert(old(self)@.remove(0) =~= old(self)@.drop_first());
            }
            Some(c)
        }
    }

    /// Receive every queued command, oldest first.
    ///
    /// What leaves the queue is exactly what entered it, in send order: the
    /// worker's receive loop observes and answers commands in the order they
    /// were sent.
    pub fn drain(&mut self) -> (r: Vec<Command>)
        requires
            old(self).inv(),
        ensures
            final(self)@.len() == 0,
            r@ == old(self)@,
    {
        let ghost q0 = self@;
        let mut r: Vec<Command> = Vec::new();
        loop
            invariant
                self.inv(),
                r@ + self@ =~= q0,
            ensures
                self@.len() == 0,
                r@ + self@ =~= q0,
            decreases self@.len(),
        {
            let ghost before = self@;
            match self.pop() {
                Some(c) => {
                    r.push(c);
                    proof {
                        assert(r@.drop_last() + before =~= q0);
                        assert(r@ + self@ =~= q0);
                    }
                },
                None => {
                    break;
                },
            }
        }
        proof {
            assert(r@ + self@ =~= r@);
            assert(r@ =~= q0);
        }
        r
    }
}

/// What the host observed of one routed call.
pub enum CallEvent<T> {
    /// The queue refused the command: full, or the worker is gone.
    SendRejected,
    /// No reply arrived within the declared call timeout.
    TimedOut,
    /// The reply destination was dropped before an answer arrived.
    ChannelClosed,
    /// The plugin answered with an error of its own.
    PluginFailed(String),
    /// The plugin answered.
    Answered(T),
}

/// Why a call got no answer; the detail is kept for logging only, the three
/// shapes are one and the same outcome to the caller.
#[derive(Debug, PartialEq, Eq, Structural, Clone, Copy)]
pub enum NoAnswerReason {
    SendFailed,
    TimedOut,
    ReplyDropped,
}

/// The caller-visible failure of one routed call: either the plugin did not
/// answer — in time or at all — or it answered with an error of its own.
/// None of these is fatal to the host.
#[derive(Debug, PartialEq, Eq)]
pub enum CallError {
    NoAnswer(NoAnswerReason),
    Plugin(String),
}

/// Turn what was observed of a routed call into the caller's result.
///
/// A reply that does not arrive within its declared timeout surfaces a
/// timeout-shaped error; a dropped reply channel and a refused send collapse
/// to the same no-answer outcome under their own detail.
pub fn resolve_call<T>(ev: CallEvent<T>) -> (r: Result<T, CallError>)
    ensures
        match ev {
            CallEvent::SendRejected => r == Err::<T, CallError>(
                CallError::NoAnswer(NoAnswerReason::SendFailed),
            ),
            CallEvent::TimedOut => r == Err::<T, CallError>(
                CallError::NoAnswer(NoAnswerReason::TimedOut),
            ),
            CallEvent::ChannelClosed => r == Err::<T, CallError>(
                CallError::NoAnswer(NoAnswerReason::ReplyDropped),
            ),
            CallEvent::PluginFailed(m) => r matches Err(e) && e == CallError::Plugin(m),
            CallEvent::Answered(v) => r matches Ok(x) && x == v,
        },
{
    match ev {
        CallEvent::SendRejected => Err(CallError::NoAnswer(NoAnswerReason::SendFailed)),
        CallEvent::TimedOut => Err(CallError::NoAnswer(NoAnswerReason::TimedOut)),
        CallEvent::ChannelClosed => Err(CallError::NoAnswer(NoAnswerReason::ReplyDropped)),
        CallEvent::PluginFailed(m) => Err(CallError::Plugin(m)),
        CallEvent::Answered(v) => Ok(v),
    }
}

} // verus!
