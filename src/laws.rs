//! What holds of a session over several operations. Each law takes the
//! successive states of one session, related by the steps that the
//! operations of `Session` ensure.
use vstd::prelude::*;

use crate::session::{
    acquire_step, fresh, pass_step, release_step, send_step, Connection, SendError, Session,
};

verus! {

/// The states `ss[0]`, ..., `ss[k]` come from render passes installing
/// `hs[0]`, ..., `hs[k - 1]` in turn.
pub open spec fn passes<H, C>(ss: Seq<Session<H, C>>, hs: Seq<H>) -> bool {
    &&& ss.len() == hs.len() + 1
    &&& forall|i: int| 0 <= i < hs.len() ==> #[trigger] pass_step(ss[i], ss[i + 1], hs[i])
}

proof fn lemma_passes_prefix<H, C>(ss: Seq<Session<H, C>>, hs: Seq<H>, k: int)
    requires
        passes(ss, hs),
        ss[0]@ == fresh::<H>(),
        1 <= k <= hs.len(),
    ensures
        ss[k]@.connects == 1,
        ss[k]@.phase is Connected,
        ss[k]@.handler == Some(hs[k - 1]),
        ss[k]@.owners == 1,
        ss[k].connection() == ss[1].connection(),
        ss[k].connection() is Some,
    decreases k,
{
    let j = k - 1;
    assert(pass_step(ss[j], ss[j + 1], hs[j]));
    if k > 1 {
        lemma_passes_prefix(ss, hs, k - 1);
    }
}

/// However many render passes run on one component instance, and whatever
/// handler each installs, the connection is made by the first pass and by no
/// other: after every pass exactly one connection has been made, and it is
/// the same one.
pub proof fn lemma_one_connection_per_instance<H, C>(ss: Seq<Session<H, C>>, hs: Seq<H>)
    requires
        passes(ss, hs),
        ss[0]@ == fresh::<H>(),
        hs.len() >= 1,
    ensures
        forall|k: int|
            1 <= k <= hs.len() ==> {
                &&& (#[trigger] ss[k])@.connects == 1
                &&& ss[k]@.phase is Connected
                &&& ss[k].connection() is Some
                &&& ss[k].connection() == ss[1].connection()
            },
{
    assert forall|k: int| 1 <= k <= hs.len() implies {
        &&& (#[trigger] ss[k])@.connects == 1
        &&& ss[k]@.phase is Connected
        &&& ss[k].connection() is Some
        &&& ss[k].connection() == ss[1].connection()
    } by {
        lemma_passes_prefix(ss, hs, k);
    }
}

/// Once pass `k` has run, and until the next pass runs, outputs go to the
/// handler that pass `k` installed; after the next pass, to its handler.
pub proof fn lemma_latest_handler_receives<H, C>(ss: Seq<Session<H, C>>, hs: Seq<H>, k: int)
    requires
        passes(ss, hs),
        0 <= k < hs.len(),
    ensures
        ss[k + 1]@.handler == Some(hs[k]),
        k + 1 < hs.len() ==> ss[k + 2]@.handler == Some(hs[k + 1]),
{
    assert(pass_step(ss[k], ss[k + 1], hs[k]));
    if k + 1 < hs.len() {
        let j = k + 1;
        assert(pass_step(ss[j], ss[j + 1], hs[j]));
    }
}

/// The states `ss[0]`, ..., `ss[k]` come from sends of `xs[0]`, ...,
/// `xs[k - 1]` in turn, which returned `rs[0]`, ..., `rs[k - 1]`.
pub open spec fn sends<H, C: Connection<I>, I>(
    ss: Seq<Session<H, C>>,
    xs: Seq<I>,
    rs: Seq<Result<(), SendError<C::Error>>>,
) -> bool {
    &&& ss.len() == xs.len() + 1
    &&& rs.len() == xs.len()
    &&& forall|i: int| 0 <= i < xs.len() ==> #[trigger] send_step(ss[i], ss[i + 1], xs[i], rs[i])
}

proof fn lemma_sends_prefix<H, C: Connection<I>, I>(
    ss: Seq<Session<H, C>>,
    xs: Seq<I>,
    rs: Seq<Result<(), SendError<C::Error>>>,
    k: int,
)
    requires
        sends(ss, xs, rs),
        ss[0].wf(),
        ss[0]@.phase is Connected,
        0 <= k <= xs.len(),
    ensures
        ss[k]@ == ss[0]@,
        ss[k].connection() is Some,
        ss[k].connection()->Some_0.handed() == ss[0].connection()->Some_0.handed() + xs.take(k),
    decreases k,
{
    if k == 0 {
        assert(ss[0].connection()->Some_0.handed() + xs.take(0)
            =~= ss[0].connection()->Some_0.handed());
    } else {
        lemma_sends_prefix(ss, xs, rs, k - 1);
        let j = k - 1;
        assert(send_step(ss[j], ss[j + 1], xs[j], rs[j]));
        assert(ss[0].connection()->Some_0.handed() + xs.take(k) =~= (
        ss[0].connection()->Some_0.handed() + xs.take(k - 1)).push(xs[k - 1]));
    }
}

/// On a connected session the transport is handed each message sent, once,
/// unchanged and in the order of the calls; nothing else about the session
/// changes.
pub proof fn lemma_sends_in_order<H, C: Connection<I>, I>(
    ss: Seq<Session<H, C>>,
    xs: Seq<I>,
    rs: Seq<Result<(), SendError<C::Error>>>,
)
    requires
        sends(ss, xs, rs),
        ss[0].wf(),
        ss[0]@.phase is Connected,
    ensures
        ss.last()@ == ss[0]@,
        ss.last().connection() is Some,
        ss.last().connection()->Some_0.handed() == ss[0].connection()->Some_0.handed() + xs,
{
    lemma_sends_prefix(ss, xs, rs, xs.len() as int);
    assert(xs.take(xs.len() as int) =~= xs);
}

/// A clone of a handle shares the one connection: sending through it makes
/// no new connection and hands the message to that connection once, just as
/// sending through the original does.
pub proof fn lemma_clone_shares_connection<H, C: Connection<I>, I>(
    s0: Session<H, C>,
    s1: Session<H, C>,
    s2: Session<H, C>,
    t: Session<H, C>,
    x: I,
    r: Result<(), SendError<C::Error>>,
    r_original: Result<(), SendError<C::Error>>,
)
    requires
        s0.wf(),
        s0@.phase is Connected,
        acquire_step(s0, s1),
        send_step(s1, s2, x, r),
        send_step(s0, t, x, r_original),
    ensures
        s2@.connects == 1,
        s2@.owners == s0@.owners + 1,
        s2.connection()->Some_0.handed() == s0.connection()->Some_0.handed().push(x),
        s2.connection()->Some_0.handed() == t.connection()->Some_0.handed(),
{
}

/// A handler that, while it runs, causes a new render pass installing `next`
/// keeps running as the copy it was taken as; the pass makes no new
/// connection, and the next output goes to `next`.
pub proof fn lemma_reentrant_pass<H, C>(s0: Session<H, C>, s1: Session<H, C>, next: H)
    requires
        s0.wf(),
        s0@.phase is Connected,
        pass_step(s0, s1, next),
    ensures
        s0@.handler is Some,
        s1@.handler == Some(next),
        s1@.connects == s0@.connects,
        s1.connection() == s0.connection(),
        s1.wf(),
{
}

/// An owner other than the last letting go tears nothing down, and a later
/// send still reaches the same connection.
pub proof fn lemma_send_after_release<H, C: Connection<I>, I>(
    s0: Session<H, C>,
    s1: Session<H, C>,
    s2: Session<H, C>,
    back: Option<C>,
    x: I,
    r: Result<(), SendError<C::Error>>,
)
    requires
        s0.wf(),
        s0@.phase is Connected,
        s0@.owners > 1,
        release_step(s0, s1, back),
        send_step(s1, s2, x, r),
    ensures
        back is None,
        s2@.teardowns == 0,
        s2@.phase is Connected,
        s2.connection()->Some_0.handed() == s0.connection()->Some_0.handed().push(x),
{
}

/// The states `ss[0]`, ..., `ss[k]` come from owners letting go in turn,
/// each handing back `rs[i]`.
pub open spec fn releases<H, C>(ss: Seq<Session<H, C>>, rs: Seq<Option<C>>) -> bool {
    &&& ss.len() == rs.len() + 1
    &&& forall|i: int| 0 <= i < rs.len() ==> #[trigger] release_step(ss[i], ss[i + 1], rs[i])
}

proof fn lemma_releases_prefix<H, C>(ss: Seq<Session<H, C>>, rs: Seq<Option<C>>, k: int)
    requires
        releases(ss, rs),
        ss[0].wf(),
        ss[0]@.phase is Connected,
        rs.len() == ss[0]@.owners,
        0 <= k < rs.len(),
    ensures
        ss[k]@.owners == ss[0]@.owners - k,
        ss[k]@.phase is Connected,
        ss[k]@.teardowns == 0,
        ss[k].connection() == ss[0].connection(),
        forall|i: int| 0 <= i < k ==> (#[trigger] rs[i]) is None,
    decreases k,
{
    if k > 0 {
        lemma_releases_prefix(ss, rs, k - 1);
        let j = k - 1;
        assert(release_step(ss[j], ss[j + 1], rs[j]));
    }
}

/// When every owner of a connected session lets go, in whatever order, the
/// connection is handed back for teardown exactly once: to the last owner,
/// and not before.
pub proof fn lemma_single_teardown<H, C>(ss: Seq<Session<H, C>>, rs: Seq<Option<C>>)
    requires
        releases(ss, rs),
        ss[0].wf(),
        ss[0]@.phase is Connected,
        rs.len() == ss[0]@.owners,
    ensures
        forall|i: int| 0 <= i < rs.len() - 1 ==> (#[trigger] rs[i]) is None,
        rs.last() == ss[0].connection(),
        rs.last() is Some,
        ss.last()@.teardowns == 1,
        ss.last()@.phase is Closed,
{
    let n = rs.len() as int;
    lemma_releases_prefix(ss, rs, n - 1);
    let j = n - 1;
    assert(release_step(ss[j], ss[j + 1], rs[j]));
}

} // verus!
