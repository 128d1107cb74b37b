//! Global guarantees of the dispatcher state, stated over the spec-level
//! relations that the executable operations ensure.

use vstd::prelude::*;
use crate::server::{conn_has_tok, teardown_post, ConnLog, ConnRecord, Link, Server, Token};
use crate::relay::{relay_decision, Direction, ForwardPlan, RelayError};

verus! {

/// The relay history of one side of a connection: the bytes moved towards
/// the child for `NetToChild`, towards the client for `ChildToNet`.
pub open spec fn side_of(g: ConnLog, dir: Direction) -> Seq<u8> {
    match dir {
        Direction::NetToChild => g.from_net,
        Direction::ChildToNet => g.from_child,
    }
}

/// Registry/table consistency: in a well-formed dispatcher state, every
/// registered token resolves to a live connection that owns it; every live
/// connection has its three tokens registered, resolving back to it; and no
/// token is owned by two distinct live connections.
pub proof fn lemma_registry_consistency(s: Server)
    requires
        s.wf(),
    ensures
        forall|t: Token| #[trigger]
            s.tok_to_link@.contains_key(t) ==> s.connections@.contains_key(s.tok_to_link@[t])
                && conn_has_tok(s.connections@[s.tok_to_link@[t]], t),
        forall|l: Link| #[trigger]
            s.connections@.contains_key(l) ==> s.tok_to_link@.contains_key(
                s.connections@[l].net_in_tok,
            ) && s.tok_to_link@[s.connections@[l].net_in_tok] == l && s.tok_to_link@.contains_key(
                s.connections@[l].child_out_tok,
            ) && s.tok_to_link@[s.connections@[l].child_out_tok] == l
                && s.tok_to_link@.contains_key(s.connections@[l].timeout_tok)
                && s.tok_to_link@[s.connections@[l].timeout_tok] == l,
        forall|l1: Link, l2: Link, t: Token|
            #![trigger conn_has_tok(s.connections@[l1], t), conn_has_tok(s.connections@[l2], t)]
            s.connections@.contains_key(l1) && s.connections@.contains_key(l2) && l1 != l2
                && conn_has_tok(s.connections@[l1], t) ==> !conn_has_tok(s.connections@[l2], t),
{
    assert forall|l1: Link, l2: Link, t: Token|
        s.connections@.contains_key(l1) && s.connections@.contains_key(l2) && l1 != l2
            && #[trigger] conn_has_tok(s.connections@[l1], t) implies !conn_has_tok(
        #[trigger] s.connections@[l2],
        t,
    ) by {
        if conn_has_tok(s.connections@[l2], t) {
            assert(s.tok_to_link@.contains_key(t) && s.tok_to_link@[t] == l1);
            assert(s.tok_to_link@.contains_key(t) && s.tok_to_link@[t] == l2);
        }
    }
}

/// Teardown is one-shot: once a connection's record has been handed out by a
/// teardown, a second teardown of the same link hands nothing out and leaves
/// the registry and the table untouched — the guarded child behind the record
/// is therefore released exactly once.
pub proof fn lemma_teardown_is_one_shot(
    pre: Server,
    mid: Server,
    post: Server,
    link: Link,
    r1: Option<ConnRecord>,
    r2: Option<ConnRecord>,
)
    requires
        teardown_post(pre, mid, link, r1),
        teardown_post(mid, post, link, r2),
    ensures
        pre.connections@.contains_key(link) ==> r1 == Some(pre.connections@[link]),
        r2 is None,
        post.connections@ == mid.connections@,
        post.tok_to_link@ == mid.tok_to_link@,
{
}

/// Failure isolation: tearing one connection down leaves every other live
/// connection untouched — its record stays in the table and all three of its
/// tokens still resolve to it. An error in one connection never affects the
/// others.
pub proof fn lemma_teardown_isolates(
    pre: Server,
    post: Server,
    link: Link,
    r: Option<ConnRecord>,
    other: Link,
)
    requires
        pre.wf(),
        teardown_post(pre, post, link, r),
        other != link,
        pre.connections@.contains_key(other),
    ensures
        post.connections@.contains_key(other),
        post.connections@[other] == pre.connections@[other],
        post.resolve(pre.connections@[other].net_in_tok) == Some(other),
        post.resolve(pre.connections@[other].child_out_tok) == Some(other),
        post.resolve(pre.connections@[other].timeout_tok) == Some(other),
{
    let oc = pre.connections@[other];
    assert(pre.tok_to_link@[oc.net_in_tok] == other);
    assert(pre.tok_to_link@[oc.child_out_tok] == other);
    assert(pre.tok_to_link@[oc.timeout_tok] == other);
    if pre.connections@.contains_key(link) {
        let c = pre.connections@[link];
        // the removed tokens resolve to `link`, the kept ones to `other`
        assert(pre.tok_to_link@[c.net_in_tok] == link);
        assert(pre.tok_to_link@[c.child_out_tok] == link);
        assert(pre.tok_to_link@[c.timeout_tok] == link);
    }
}

/// Byte-order fidelity across chunking: two successive relay steps of the
/// same connection and direction, carrying `d1` and then `d2`, forward
/// exactly those bytes and leave that side's history grown by `d1 + d2`, in
/// order; the opposite side's history is untouched.
pub proof fn lemma_relay_preserves_byte_order(
    s0: Server,
    s1: Server,
    s2: Server,
    link: Link,
    tk: Token,
    dir: Direction,
    d1: Seq<u8>,
    d2: Seq<u8>,
    r1: Result<Option<ForwardPlan>, RelayError>,
    r2: Result<Option<ForwardPlan>, RelayError>,
)
    requires
        d1.len() > 0,
        d2.len() > 0,
        s0.direction_spec(link, tk) == Some(dir),
        s1.connections@ == s0.connections@,
        relay_decision(s0, s1, link, tk, d1, r1),
        relay_decision(s1, s2, link, tk, d2, r2),
    ensures
        (r1 matches Ok(Some(p)) && p.bytes@ == d1 && p.dir == dir),
        (r2 matches Ok(Some(p)) && p.bytes@ == d2 && p.dir == dir),
        side_of(s2.relay_log@[link], dir) == side_of(s0.relay_log@[link], dir) + d1 + d2,
        side_of(s2.relay_log@[link], dir.opposite()) == side_of(s0.relay_log@[link], dir.opposite()),
{
    assert(s1.direction_spec(link, tk) == Some(dir));
}

} // verus!
