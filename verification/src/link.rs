//! The decisions of a connection that re-establishes itself: when to read
//! or write, when to wait for a pending connect, when to connect again.

use vstd::prelude::*;

verus! {

/// The state of a reconnecting connection.
#[derive(Clone, Copy, Debug, PartialEq, Eq)]
pub enum LinkState {
    /// A stream is open.
    Connected,
    /// A connect is pending.
    Connecting,
    /// No stream and no pending connect.
    Disconnected,
}

/// What to do next with the connection.
#[derive(Clone, Copy, Debug, PartialEq, Eq)]
pub enum LinkAction {
    /// Read, write or flush the open stream.
    UseStream,
    /// Poll the pending connect.
    PollConnect,
    /// Start a new connect; the state is now `Connecting`.
    StartConnect,
}

/// How a read, write or flush of the open stream went.
#[derive(Clone, Copy, Debug, PartialEq, Eq)]
pub enum IoOutcome {
    /// It succeeded.
    Done,
    /// The stream is not ready; try again later.
    WouldBlock,
    /// Any other error: the connection is taken as broken.
    Broken,
}

/// How polling a pending connect went.
#[derive(Clone, Copy, Debug, PartialEq, Eq)]
pub enum ConnectOutcome {
    /// The stream is open.
    Established,
    /// Still pending.
    Pending,
    /// The connect failed.
    Failed,
}

/// What follows a step: hand the result back, or go on.
#[derive(Clone, Copy, Debug, PartialEq, Eq)]
pub enum LinkStep {
    /// Return the outcome of the stream operation to the caller.
    ReturnOutcome,
    /// Return "would block": the connect is still pending.
    ReturnWouldBlock,
    /// Return the connect's error.
    ReturnConnectError,
    /// Ask for the next action again.
    Continue,
}

/// The action a state calls for, and the state after deciding it.
pub open spec fn link_next(s: LinkState) -> (LinkAction, LinkState) {
    match s {
        LinkState::Connected => (LinkAction::UseStream, LinkState::Connected),
        LinkState::Connecting => (LinkAction::PollConnect, LinkState::Connecting),
        LinkState::Disconnected => (LinkAction::StartConnect, LinkState::Connecting),
    }
}

/// The step after a stream operation, and the new state.
pub open spec fn link_after_io(o: IoOutcome) -> (LinkStep, LinkState) {
    match o {
        IoOutcome::Done => (LinkStep::ReturnOutcome, LinkState::Connected),
        IoOutcome::WouldBlock => (LinkStep::ReturnOutcome, LinkState::Connected),
        IoOutcome::Broken => (LinkStep::Continue, LinkState::Disconnected),
    }
}

/// The step after polling a connect, and the new state.
pub open spec fn link_after_connect(o: ConnectOutcome) -> (LinkStep, LinkState) {
    match o {
        ConnectOutcome::Established => (LinkStep::Continue, LinkState::Connected),
        ConnectOutcome::Pending => (LinkStep::ReturnWouldBlock, LinkState::Connecting),
        ConnectOutcome::Failed => (LinkStep::ReturnConnectError, LinkState::Disconnected),
    }
}

/// A connection that re-establishes itself when it breaks.
#[derive(Clone, Copy, Debug)]
pub struct Link {
    state: LinkState,
}

impl Link {
    /// The state, in specifications.
    pub closed spec fn state_of(&self) -> LinkState {
        self.state
    }

    /// A connection over an open stream.
    pub fn connected() -> (r: Self)
        ensures
            r.state_of() == LinkState::Connected,
    {
        Link { state: LinkState::Connected }
    }

    /// The state.
    pub fn state(&self) -> (r: LinkState)
        ensures
            r == self.state_of(),
    {
        self.state
    }

    /// What to do next; a connection without stream starts connecting.
    pub fn next_action(&mut self) -> (r: LinkAction)
        ensures
            (r, final(self).state_of()) == link_next(old(self).state_of()),
    {
        match self.state {
            LinkState::Connected => LinkAction::UseStream,
            LinkState::Connecting => LinkAction::PollConnect,
            LinkState::Disconnected => {
                self.state = LinkState::Connecting;
                LinkAction::StartConnect
            },
        }
    }

    /// A stream operation went as `o`: its outcome goes back unless the
    /// connection broke, in which case the connection is dropped and the
    /// operation is tried again on a new one.
    pub fn io_done(&mut self, o: IoOutcome) -> (r: LinkStep)
        requires
            old(self).state_of() == LinkState::Connected,
        ensures
            (r, final(self).state_of()) == link_after_io(o),
    {
        match o {
            IoOutcome::Done | IoOutcome::WouldBlock => LinkStep::ReturnOutcome,
            IoOutcome::Broken => {
                self.state = LinkState::Disconnected;
                LinkStep::Continue
            },
        }
    }

    /// Polling the pending connect went as `o`.
    pub fn connect_done(&mut self, o: ConnectOutcome) -> (r: LinkStep)
        requires
            old(self).state_of() == LinkState::Connecting,
        ensures
            (r, final(self).state_of()) == link_after_connect(o),
    {
        match o {
            ConnectOutcome::Established => {
                self.state = LinkState::Connected;
                LinkStep::Continue
            },
            ConnectOutcome::Pending => LinkStep::ReturnWouldBlock,
            ConnectOutcome::Failed => {
                self.state = LinkState::Disconnected;
                LinkStep::ReturnConnectError
            },
        }
    }

    /// Shutting down: an open stream is shut down and kept; a pending
    /// connect is abandoned. Returns whether the stream must be shut down.
    pub fn shutdown(&mut self) -> (r: bool)
        ensures
            r == (old(self).state_of() == LinkState::Connected),
            final(self).state_of() == match old(self).state_of() {
                LinkState::Connected => LinkState::Connected,
                _ => LinkState::Disconnected,
            },
    {
        match self.state {
            LinkState::Connected => true,
            _ => {
                self.state = LinkState::Disconnected;
                false
            },
        }
    }
}

/// A broken connection is never used again: the action after it starts a
/// new connect, and only an established connect gets back to the stream.
pub proof fn lemma_reconnect_after_break()
    ensures
        link_next(link_after_io(IoOutcome::Broken).1).0 == LinkAction::StartConnect,
        link_next(link_after_io(IoOutcome::Broken).1).1 == LinkState::Connecting,
        forall|o: ConnectOutcome|
            link_after_connect(o).1 == LinkState::Connected ==> o == ConnectOutcome::Established,
{
}

} // verus!
