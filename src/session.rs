use vstd::prelude::*;

use crate::slot::CallbackSlot;

verus! {

/// Where a session stands in its life.
#[derive(Clone, Copy, Debug, PartialEq, Eq, Structural)]
pub enum Phase {
    /// No render pass has run yet, so no connection exists.
    Uninitialized,
    /// The connection is open.
    Connected,
    /// The last owner has let go; the connection, if any, was handed back.
    Closed,
}

/// Why a message was not handed to the transport.
#[derive(Debug, PartialEq, Eq)]
pub enum SendError<E> {
    /// No render pass has created the connection yet.
    NotConnected,
    /// The session has been closed.
    Closed,
    /// The transport refused the message; its own error, unchanged.
    Transport(E),
}

/// The outbound side of a connection to a worker, as the transport gives it.
///
/// An implementation keeps account of what it was handed and what it
/// answered, so that a caller can be held to handing over each message.
pub trait Connection<I> {
    type Error;

    /// Every message handed to `send` so far, in order. An implementation
    /// that Verus checks gives its own account here and in `answers`: with
    /// the empty default its `send` cannot meet its contract. The defaults
    /// let code outside Verus implement the trait.
    closed spec fn handed(&self) -> Seq<I> {
        Seq::empty()
    }

    /// What each call of `send` returned, in order.
    closed spec fn answers(&self) -> Seq<Result<(), Self::Error>> {
        Seq::empty()
    }

    /// Hands `input` to the worker, without waiting for an answer.
    fn send(&mut self, input: I) -> (r: Result<(), Self::Error>)
        ensures
            final(self).handed() == old(self).handed().push(input),
            final(self).answers() == old(self).answers().push(r),
    ;
}

/// What the transport answered, read back from what a session's send returned.
pub open spec fn transport_answer<E>(r: Result<(), SendError<E>>) -> Result<(), E> {
    match r {
        Ok(done) => Ok(done),
        Err(SendError::Transport(e)) => Err(e),
        Err(_) => Ok(()),
    }
}

/// What a session is, apart from the connection value itself.
pub struct SessionView<H> {
    pub phase: Phase,
    /// The handler that the last render pass installed.
    pub handler: Option<H>,
    /// How many owners (the component instance and its handles) are live.
    pub owners: nat,
    /// How many times a connection was created.
    pub connects: nat,
    /// How many times a connection was handed back for teardown.
    pub teardowns: nat,
}

/// A session as the component instance creates it: one owner, nothing else.
pub open spec fn fresh<H>() -> SessionView<H> {
    SessionView {
        phase: Phase::Uninitialized,
        handler: None,
        owners: 1,
        connects: 0,
        teardowns: 0,
    }
}

/// The states that the operations below can reach from `fresh`.
pub open spec fn view_wf<H>(v: SessionView<H>) -> bool {
    &&& (v.phase is Closed <==> v.owners == 0)
    &&& (v.phase is Uninitialized ==> v.connects == 0 && v.handler is None)
    &&& (v.phase is Connected ==> v.connects == 1 && v.handler is Some)
    &&& v.connects <= 1
    &&& (v.phase is Closed ==> v.teardowns == v.connects)
    &&& (!(v.phase is Closed) ==> v.teardowns == 0)
}

/// A render pass installing `h`: the connection is made if there is none yet.
pub open spec fn after_pass<H>(v: SessionView<H>, h: H) -> SessionView<H> {
    SessionView {
        phase: Phase::Connected,
        handler: Some(h),
        connects: if v.phase is Uninitialized { v.connects + 1 } else { v.connects },
        ..v
    }
}

/// One more owner, as when a handle is cloned.
pub open spec fn after_acquire<H>(v: SessionView<H>) -> SessionView<H> {
    SessionView { owners: v.owners + 1, ..v }
}

/// One owner fewer; the last one closes the session and tears down the
/// connection, if there is one.
pub open spec fn after_release<H>(v: SessionView<H>) -> SessionView<H> {
    if v.owners <= 1 {
        SessionView {
            phase: Phase::Closed,
            owners: 0,
            teardowns: if v.phase is Connected { v.teardowns + 1 } else { v.teardowns },
            ..v
        }
    } else {
        SessionView { owners: (v.owners - 1) as nat, ..v }
    }
}

/// One component instance's bridge to its worker.
///
/// The connection is created lazily by the first render pass and kept until
/// the last owner releases the session; the handler is refreshed by every
/// pass.
pub struct Session<H, C> {
    phase: Phase,
    slot: Option<CallbackSlot<H>>,
    connection: Option<C>,
    owners: u64,
    connects: u64,
    teardowns: u64,
}

impl<H, C> View for Session<H, C> {
    type V = SessionView<H>;

    closed spec fn view(&self) -> SessionView<H> {
        SessionView {
            phase: self.phase,
            handler: match self.slot {
                Some(s) => Some(s.handler()),
                None => None,
            },
            owners: self.owners as nat,
            connects: self.connects as nat,
            teardowns: self.teardowns as nat,
        }
    }
}

/// A render pass that installs `h` takes `s0` to `s1`; once connected, the
/// connection stays the one that was made.
pub open spec fn pass_step<H, C>(s0: Session<H, C>, s1: Session<H, C>, h: H) -> bool {
    &&& s1@ == after_pass(s0@, h)
    &&& s1.connection() is Some
    &&& (s0@.phase is Connected ==> s1.connection() == s0.connection())
}

/// A send of `x` that answered `r` takes `s0` to `s1`: a connected session
/// hands `x` to its connection once, and returns the connection's answer;
/// any other leaves everything as it was.
pub open spec fn send_step<H, C: Connection<I>, I>(
    s0: Session<H, C>,
    s1: Session<H, C>,
    x: I,
    r: Result<(), SendError<C::Error>>,
) -> bool {
    &&& s1@ == s0@
    &&& (s0@.phase is Uninitialized <==> r == Err::<(), SendError<C::Error>>(SendError::NotConnected))
    &&& (s0@.phase is Closed <==> r == Err::<(), SendError<C::Error>>(SendError::Closed))
    &&& (s0@.phase !is Connected ==> s1 == s0)
    &&& (s0@.phase is Connected ==> {
        &&& s0.connection() is Some
        &&& s1.connection() is Some
        &&& s1.connection()->Some_0.handed() == s0.connection()->Some_0.handed().push(x)
        &&& s1.connection()->Some_0.answers() == s0.connection()->Some_0.answers().push(
            transport_answer(r),
        )
        &&& (r is Ok || r matches Err(SendError::Transport(_)))
    })
}

/// A new owner takes `s0` to `s1`, sharing its connection.
pub open spec fn acquire_step<H, C>(s0: Session<H, C>, s1: Session<H, C>) -> bool {
    &&& s1@ == after_acquire(s0@)
    &&& s1.connection() == s0.connection()
}

/// An owner letting go takes `s0` to `s1` and hands back `r`: the last owner
/// gets the connection to tear down, the others nothing.
pub open spec fn release_step<H, C>(s0: Session<H, C>, s1: Session<H, C>, r: Option<C>) -> bool {
    &&& s1@ == after_release(s0@)
    &&& (s0@.owners == 1 ==> r == s0.connection() && s1.connection() is None)
    &&& (s0@.owners > 1 ==> r is None && s1.connection() == s0.connection())
    &&& (r is Some <==> s1@.teardowns == s0@.teardowns + 1)
}

impl<H, C> Session<H, C> {
    /// The connection value held now, if any.
    pub closed spec fn connection(&self) -> Option<C> {
        self.connection
    }

    /// The session's model is a reachable state, and a connection is held
    /// exactly while the session is connected.
    pub open spec fn wf(&self) -> bool {
        &&& view_wf(self@)
        &&& (self.connection() is Some <==> self@.phase is Connected)
    }

    /// A session for a newly mounted component instance, which is its one owner.
    pub fn new() -> (s: Self)
        ensures
            s.wf(),
            s@ == fresh::<H>(),
    {
        Session {
            phase: Phase::Uninitialized,
            slot: None,
            connection: None,
            owners: 1,
            connects: 0,
            teardowns: 0,
        }
    }

    /// One render pass: installs `handler` as the one that receives outputs
    /// from now on, and on the first pass only creates the connection by
    /// calling `connect`, which later passes never call.
    pub fn render<F: FnOnce() -> C>(&mut self, handler: H, connect: F)
        requires
            old(self).wf(),
            old(self)@.phase !is Closed,
            old(self)@.phase is Uninitialized ==> connect.requires(()),
        ensures
            final(self).wf(),
            pass_step(*old(self), *final(self), handler),
            old(self)@.phase is Uninitialized ==> connect.ensures((), final(self).connection()->Some_0),
    {
        match &mut self.slot {
            Some(slot) => slot.replace(handler),
            None => {
                self.slot = Some(CallbackSlot::new(handler));
            },
        }
        if self.connection.is_none() {
            let c = connect();
            self.connection = Some(c);
            self.connects = self.connects + 1;
            self.phase = Phase::Connected;
        }
    }

    /// A shared copy of the handler that the last render pass installed, for
    /// the worker's next output; `None` before the first pass.
    pub fn current_handler(&self) -> (r: Option<std::rc::Rc<H>>)
        ensures
            match r {
                Some(h) => self@.handler == Some(*h),
                None => self@.handler is None,
            },
    {
        match &self.slot {
            Some(slot) => Some(slot.read_and_clone()),
            None => None,
        }
    }

    /// Hands `input` to the connection, once and unchanged; a refusal by
    /// the transport comes back as it is.
    pub fn send<I>(&mut self, input: I) -> (r: Result<(), SendError<C::Error>>)
        where
            C: Connection<I>,
        requires
            old(self).wf(),
        ensures
            final(self).wf(),
            send_step(*old(self), *final(self), input, r),
    {
        match self.phase {
            Phase::Uninitialized => Err(SendError::NotConnected),
            Phase::Closed => Err(SendError::Closed),
            Phase::Connected => match &mut self.connection {
                Some(c) => {
                    let answer = c.send(input);
                    match answer {
                        Ok(done) => Ok(done),
                        Err(e) => Err(SendError::Transport(e)),
                    }
                },
                None => Err(SendError::NotConnected),
            },
        }
    }

    /// Registers one more owner, as a cloned handle does.
    pub fn acquire(&mut self)
        requires
            old(self).wf(),
            old(self)@.phase !is Closed,
            old(self)@.owners < u64::MAX,
        ensures
            final(self).wf(),
            acquire_step(*old(self), *final(self)),
    {
        self.owners = self.owners + 1;
    }

    /// Lets one owner go. When the last one goes the session closes, and the
    /// connection, if one was made, is handed back to be torn down: this
    /// happens once in a session's life.
    pub fn release(&mut self) -> (r: Option<C>)
        requires
            old(self).wf(),
            old(self)@.phase !is Closed,
        ensures
            final(self).wf(),
            release_step(*old(self), *final(self), r),
    {
        self.owners = self.owners - 1;
        if self.owners == 0 {
            let was_connected = self.phase == Phase::Connected;
            self.phase = Phase::Closed;
            if was_connected {
                self.teardowns = self.teardowns + 1;
            }
            self.connection.take()
        } else {
            None
        }
    }

    /// Where the session stands.
    pub fn phase(&self) -> (r: Phase)
        ensures
            r == self@.phase,
    {
        self.phase
    }

    /// How many owners are live.
    pub fn owner_count(&self) -> (r: u64)
        ensures
            r == self@.owners,
    {
        self.owners
    }

    /// How many times a connection was created.
    pub fn connect_count(&self) -> (r: u64)
        ensures
            r == self@.connects,
    {
        self.connects
    }

    /// How many times a connection was handed back for teardown.
    pub fn teardown_count(&self) -> (r: u64)
        ensures
            r == self@.teardowns,
    {
        self.teardowns
    }
}


} // verus!
