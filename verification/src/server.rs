//! Dispatcher state: the token/link registry and the connection table.

use vstd::prelude::*;
use std::collections::HashMap;

verus! {

broadcast use vstd::std_specs::hash::group_hash_axioms;

/// Identifier for one registered readiness source (socket-readable,
/// child-output-readable, or timer-fired).
pub type Token = u64;

/// Identifier for one logical connection, stable for its lifetime.
pub type Link = u64;

/// What the dispatcher remembers about one open connection: the three
/// readiness tokens it owns. The OS-level resources behind them (socket,
/// child process, outstanding timeout) are held by the surrounding binary,
/// keyed by the connection's link.
pub struct ConnRecord {
    /// Token registered for the client socket becoming readable.
    pub net_in_tok: Token,
    /// Token registered for the child's output pipe becoming readable.
    pub child_out_tok: Token,
    /// Token carried by the connection's idle timer; stable across rearms.
    pub timeout_tok: Token,
}

/// History of the bytes relayed over one connection, one sequence per
/// direction. Ghost: it exists only to state byte-order fidelity.
pub struct ConnLog {
    /// Bytes moved from the client socket to the child's input, in order.
    pub from_net: Seq<u8>,
    /// Bytes moved from the child's output to the client socket, in order.
    pub from_child: Seq<u8>,
}

impl ConnLog {
    /// The log of a freshly accepted connection: nothing relayed yet.
    pub open spec fn empty() -> ConnLog {
        ConnLog { from_net: Seq::empty(), from_child: Seq::empty() }
    }
}

/// The dispatcher's process-lifetime state: token/link registry, connection
/// table, identifier generators, and the command template for spawned
/// children.
pub struct Server {
    /// Registry resolving each registered token back to its connection.
    pub tok_to_link: HashMap<Token, Link>,
    /// Table of open connections.
    pub connections: HashMap<Link, ConnRecord>,
    /// Last token handed out.
    pub tok_gen: Token,
    /// Last link handed out.
    pub link_gen: Link,
    /// TCP port the listener is bound to.
    pub port: u16,
    /// Executable spawned once per accepted connection.
    pub child_path: String,
    /// Arguments handed to each spawned child.
    pub child_args: Vec<String>,
    /// Token of the listening socket.
    pub acceptor_token: Token,
    /// Token of the timer facility.
    pub timer_token: Token,
    /// Per-link relay history, for stating byte-order fidelity.
    pub relay_log: Ghost<Map<Link, ConnLog>>,
}

/// Whether `t` is one of the three tokens owned by connection record `c`.
pub open spec fn conn_has_tok(c: ConnRecord, t: Token) -> bool {
    t == c.net_in_tok || t == c.child_out_tok || t == c.timeout_tok
}

/// Why a connection setup attempt was refused by the registry: a generated
/// identifier is still in use by an open connection, which is possible only
/// once a generator has wrapped around.
#[derive(Clone, Copy, PartialEq, Eq, Debug, Structural)]
pub enum SetupError {
    /// The link or one of the three tokens collides with a live connection.
    IdInUse,
}

/// Successor of an identifier: the generators wrap on overflow.
pub open spec fn wrap_succ(x: u64) -> u64 {
    if x == u64::MAX {
        0u64
    } else {
        (x + 1) as u64
    }
}

/// The two dispatcher states carry the same configuration: port, command
/// template and reserved tokens.
pub open spec fn same_config(a: Server, b: Server) -> bool {
    &&& a.port == b.port
    &&& a.child_path == b.child_path
    &&& a.child_args == b.child_args
    &&& a.acceptor_token == b.acceptor_token
    &&& a.timer_token == b.timer_token
}

/// The two dispatcher states agree on everything but the identifier
/// generators: registry, table, relay history and configuration unchanged.
pub open spec fn same_but_gens(a: Server, b: Server) -> bool {
    &&& a.tok_to_link@ == b.tok_to_link@
    &&& a.connections@ == b.connections@
    &&& a.relay_log == b.relay_log
    &&& same_config(a, b)
}

/// The connection record made of the three given tokens.
pub open spec fn mk_record(net_in_tok: Token, child_out_tok: Token, timeout_tok: Token) -> ConnRecord {
    ConnRecord { net_in_tok, child_out_tok, timeout_tok }
}

/// Whether a setup with these three fresh tokens can be admitted to the
/// registry of `s`: the link about to be generated and the tokens are not in
/// use, and the tokens are pairwise distinct.
pub open spec fn setup_admissible(
    s: Server,
    net_in_tok: Token,
    child_out_tok: Token,
    timeout_tok: Token,
) -> bool {
    &&& !s.connections@.contains_key(wrap_succ(s.link_gen))
    &&& !s.tok_to_link@.contains_key(net_in_tok)
    &&& !s.tok_to_link@.contains_key(child_out_tok)
    &&& !s.tok_to_link@.contains_key(timeout_tok)
    &&& net_in_tok != child_out_tok
    &&& net_in_tok != timeout_tok
    &&& child_out_tok != timeout_tok
}

/// What a completed teardown of `link` leaves behind, relating the state
/// before (`pre`) and after (`post`) and the returned record `r`. When the
/// link was live, its record is returned, it has left the connection table,
/// and none of its three tokens — indeed no token resolving to it at all —
/// remains in the registry. When it was not, nothing changes.
pub open spec fn teardown_post(pre: Server, post: Server, link: Link, r: Option<ConnRecord>) -> bool {
    &&& !post.connections@.contains_key(link)
    &&& post.tok_gen == pre.tok_gen
    &&& post.link_gen == pre.link_gen
    &&& post.relay_log == pre.relay_log
    &&& same_config(post, pre)
    &&& if pre.connections@.contains_key(link) {
        let c = pre.connections@[link];
        &&& r == Some(c)
        &&& post.connections@ == pre.connections@.remove(link)
        &&& post.tok_to_link@ == pre.tok_to_link@.remove(c.net_in_tok).remove(
            c.child_out_tok,
        ).remove(c.timeout_tok)
        &&& !post.tok_to_link@.contains_key(c.net_in_tok)
        &&& !post.tok_to_link@.contains_key(c.child_out_tok)
        &&& !post.tok_to_link@.contains_key(c.timeout_tok)
        &&& forall|t: Token| #[trigger]
            post.tok_to_link@.contains_key(t) ==> post.tok_to_link@[t] != link
    } else {
        &&& r is None
        &&& post.connections@ == pre.connections@
        &&& post.tok_to_link@ == pre.tok_to_link@
    }
}

impl Server {
    /// Registry/table consistency: every registered token resolves to a live
    /// connection that owns it, and every live connection's three distinct
    /// tokens are registered and resolve back to it.
    pub open spec fn wf(self) -> bool {
        &&& forall|t: Token| #[trigger] self.tok_to_link@.contains_key(t) ==> {
            let l = self.tok_to_link@[t];
            self.connections@.contains_key(l) && conn_has_tok(self.connections@[l], t)
        }
        &&& forall|l: Link| #[trigger] self.connections@.contains_key(l) ==> {
            let c = self.connections@[l];
            &&& self.tok_to_link@.contains_key(c.net_in_tok)
            &&& self.tok_to_link@[c.net_in_tok] == l
            &&& self.tok_to_link@.contains_key(c.child_out_tok)
            &&& self.tok_to_link@[c.child_out_tok] == l
            &&& self.tok_to_link@.contains_key(c.timeout_tok)
            &&& self.tok_to_link@[c.timeout_tok] == l
            &&& c.net_in_tok != c.child_out_tok
            &&& c.net_in_tok != c.timeout_tok
            &&& c.child_out_tok != c.timeout_tok
        }
    }

    /// Fresh dispatcher state: empty registry and table, generators at the
    /// first unreserved identifier, the two reserved tokens fixed.
    pub fn new(port: u16, child_path: String, child_args: Vec<String>) -> (s: Server)
        ensures
            s.wf(),
            s.tok_to_link@ == Map::<Token, Link>::empty(),
            s.connections@ == Map::<Link, ConnRecord>::empty(),
            s.tok_gen == crate::FIRST_ID,
            s.link_gen == crate::FIRST_ID,
            s.port == port,
            s.child_path == child_path,
            s.child_args == child_args,
            s.acceptor_token == crate::ACCEPTOR_TOKEN,
            s.timer_token == crate::TIMER_TOKEN,
    {
        Server {
            tok_to_link: HashMap::new(),
            connections: HashMap::new(),
            tok_gen: crate::FIRST_ID,
            link_gen: crate::FIRST_ID,
            port,
            child_path,
            child_args,
            acceptor_token: crate::ACCEPTOR_TOKEN,
            timer_token: crate::TIMER_TOKEN,
            relay_log: Ghost(Map::empty()),
        }
    }

    /// Hand out the next event token; the generator wraps on overflow.
    pub fn next_tok(&mut self) -> (t: Token)
        ensures
            t == final(self).tok_gen,
            final(self).tok_gen == wrap_succ(old(self).tok_gen),
            final(self).link_gen == old(self).link_gen,
            same_but_gens(*final(self), *old(self)),
    {
        self.tok_gen = self.tok_gen.wrapping_add(1);
        self.tok_gen
    }

    /// Hand out the next connection link; the generator wraps on overflow.
    pub fn next_link(&mut self) -> (l: Link)
        ensures
            l == final(self).link_gen,
            final(self).link_gen == wrap_succ(old(self).link_gen),
            final(self).tok_gen == old(self).tok_gen,
            same_but_gens(*final(self), *old(self)),
    {
        self.link_gen = self.link_gen.wrapping_add(1);
        self.link_gen
    }

    /// The link `tk` currently resolves to, if any.
    pub open spec fn resolve(self, tk: Token) -> Option<Link> {
        if self.tok_to_link@.contains_key(tk) {
            Some(self.tok_to_link@[tk])
        } else {
            None
        }
    }

    /// Resolve a readiness token to its logical connection; `None` for a
    /// stale or raced notification whose source is no longer registered.
    pub fn lookup_link(&self, tk: Token) -> (r: Option<Link>)
        ensures
            r == self.resolve(tk),
    {
        match self.tok_to_link.get(&tk) {
            Some(l) => Some(*l),
            None => None,
        }
    }

    /// Commit one accepted connection to the registry: generate a fresh link
    /// and map all three tokens to it. Succeeds exactly when neither the new
    /// link nor any of the tokens collides with a live connection; on failure
    /// nothing is registered (the setup attempt is aborted whole).
    pub fn install_connection(
        &mut self,
        net_in_tok: Token,
        child_out_tok: Token,
        timeout_tok: Token,
    ) -> (r: Result<Link, SetupError>)
        requires
            old(self).wf(),
        ensures
            final(self).wf(),
            final(self).tok_gen == old(self).tok_gen,
            final(self).link_gen == wrap_succ(old(self).link_gen),
            same_config(*final(self), *old(self)),
            (r is Ok) == setup_admissible(*old(self), net_in_tok, child_out_tok, timeout_tok),
            (r is Ok) ==> r == Ok::<Link, SetupError>(wrap_succ(old(self).link_gen)),
            (r is Ok) ==> install_post(*old(self), *final(self), net_in_tok, child_out_tok, timeout_tok),
            (r is Err) ==> final(self).connections@ == old(self).connections@,
            (r is Err) ==> final(self).tok_to_link@ == old(self).tok_to_link@,
            (r is Err) ==> final(self).relay_log == old(self).relay_log,
    {
        let link = self.next_link();
        if self.connections.contains_key(&link) || self.tok_to_link.contains_key(&net_in_tok)
            || self.tok_to_link.contains_key(&child_out_tok)
            || self.tok_to_link.contains_key(&timeout_tok) || net_in_tok == child_out_tok
            || net_in_tok == timeout_tok || child_out_tok == timeout_tok {
            return Err(SetupError::IdInUse);
        }
        self.tok_to_link.insert(net_in_tok, link);
        self.tok_to_link.insert(child_out_tok, link);
        self.tok_to_link.insert(timeout_tok, link);
        let rec = ConnRecord { net_in_tok, child_out_tok, timeout_tok };
        self.connections.insert(link, rec);
        self.relay_log = Ghost(self.relay_log@.insert(link, ConnLog::empty()));
        proof {
            lemma_install_preserves_wf(*old(self), *self, link, net_in_tok, child_out_tok, timeout_tok);
        }
        Ok(link)
    }

    /// Tear one connection down: drop all three of its registry entries and
    /// remove it from the connection table, handing its record back so that
    /// the caller can cancel the timer, deregister both event sources, and
    /// release the socket and the guarded child. Idempotent: a link that is
    /// already gone changes nothing and yields `None`.
    pub fn close_connection_and_child(&mut self, link: Link) -> (r: Option<ConnRecord>)
        requires
            old(self).wf(),
        ensures
            final(self).wf(),
            teardown_post(*old(self), *final(self), link, r),
    {
        let net_in_tok;
        let child_out_tok;
        let timeout_tok;
        match self.connections.get(&link) {
            Some(c) => {
                net_in_tok = c.net_in_tok;
                child_out_tok = c.child_out_tok;
                timeout_tok = c.timeout_tok;
            },
            None => {
                return None;
            },
        }
        self.tok_to_link.remove(&net_in_tok);
        self.tok_to_link.remove(&child_out_tok);
        self.tok_to_link.remove(&timeout_tok);
        let removed = self.connections.remove(&link);
        proof {
            lemma_close_preserves_wf(*old(self), *self, link);
        }
        removed
    }
}

/// What a committed setup adds: the fresh link in the table with exactly the
/// three tokens, all three registered to it, and an empty relay history.
pub open spec fn install_post(
    pre: Server,
    post: Server,
    net_in_tok: Token,
    child_out_tok: Token,
    timeout_tok: Token,
) -> bool {
    let link = wrap_succ(pre.link_gen);
    &&& post.connections@ == pre.connections@.insert(
        link,
        mk_record(net_in_tok, child_out_tok, timeout_tok),
    )
    &&& post.tok_to_link@ == pre.tok_to_link@.insert(net_in_tok, link).insert(
        child_out_tok,
        link,
    ).insert(timeout_tok, link)
    &&& post.relay_log@ == pre.relay_log@.insert(link, ConnLog::empty())
}

/// A committed setup keeps the registry and the table consistent.
proof fn lemma_install_preserves_wf(
    pre: Server,
    post: Server,
    link: Link,
    net_in_tok: Token,
    child_out_tok: Token,
    timeout_tok: Token,
)
    requires
        pre.wf(),
        link == wrap_succ(pre.link_gen),
        setup_admissible(pre, net_in_tok, child_out_tok, timeout_tok),
        install_post(pre, post, net_in_tok, child_out_tok, timeout_tok),
    ensures
        post.wf(),
{
    assert forall|t: Token| #[trigger] post.tok_to_link@.contains_key(t) implies {
        let l = post.tok_to_link@[t];
        post.connections@.contains_key(l) && conn_has_tok(post.connections@[l], t)
    } by {
        if t == net_in_tok || t == child_out_tok || t == timeout_tok {
        } else {
            assert(pre.tok_to_link@.contains_key(t));
            assert(pre.connections@.contains_key(pre.tok_to_link@[t]));
        }
    }
    assert forall|l: Link| #[trigger] post.connections@.contains_key(l) implies {
        let c = post.connections@[l];
        &&& post.tok_to_link@.contains_key(c.net_in_tok)
        &&& post.tok_to_link@[c.net_in_tok] == l
        &&& post.tok_to_link@.contains_key(c.child_out_tok)
        &&& post.tok_to_link@[c.child_out_tok] == l
        &&& post.tok_to_link@.contains_key(c.timeout_tok)
        &&& post.tok_to_link@[c.timeout_tok] == l
        &&& c.net_in_tok != c.child_out_tok
        &&& c.net_in_tok != c.timeout_tok
        &&& c.child_out_tok != c.timeout_tok
    } by {
        if l != link {
            assert(pre.connections@.contains_key(l));
            let c = pre.connections@[l];
            assert(pre.tok_to_link@.contains_key(c.net_in_tok) && pre.tok_to_link@[c.net_in_tok]
                == l);
            assert(pre.tok_to_link@.contains_key(c.child_out_tok) && pre.tok_to_link@[c.child_out_tok]
                == l);
            assert(pre.tok_to_link@.contains_key(c.timeout_tok) && pre.tok_to_link@[c.timeout_tok]
                == l);
        }
    }
}

/// A completed teardown keeps the registry and the table consistent.
proof fn lemma_close_preserves_wf(pre: Server, post: Server, link: Link)
    requires
        pre.wf(),
        teardown_post(pre, post, link, if pre.connections@.contains_key(link) {
            Some(pre.connections@[link])
        } else {
            None
        }),
    ensures
        post.wf(),
{
    if pre.connections@.contains_key(link) {
        let c = pre.connections@[link];
        assert forall|t: Token| #[trigger] post.tok_to_link@.contains_key(t) implies {
            let l = post.tok_to_link@[t];
            post.connections@.contains_key(l) && conn_has_tok(post.connections@[l], t)
        } by {
            assert(pre.tok_to_link@.contains_key(t));
            let l = pre.tok_to_link@[t];
            if l == link {
                assert(conn_has_tok(c, t));
                assert(false);
            }
        }
        assert forall|l: Link| #[trigger] post.connections@.contains_key(l) implies {
            let cl = post.connections@[l];
            &&& post.tok_to_link@.contains_key(cl.net_in_tok)
            &&& post.tok_to_link@[cl.net_in_tok] == l
            &&& post.tok_to_link@.contains_key(cl.child_out_tok)
            &&& post.tok_to_link@[cl.child_out_tok] == l
            &&& post.tok_to_link@.contains_key(cl.timeout_tok)
            &&& post.tok_to_link@[cl.timeout_tok] == l
            &&& cl.net_in_tok != cl.child_out_tok
            &&& cl.net_in_tok != cl.timeout_tok
            &&& cl.child_out_tok != cl.timeout_tok
        } by {
            assert(pre.connections@.contains_key(l));
            let cl = pre.connections@[l];
            assert(pre.tok_to_link@[cl.net_in_tok] == l);
            assert(pre.tok_to_link@[cl.child_out_tok] == l);
            assert(pre.tok_to_link@[cl.timeout_tok] == l);
        }
    }
}

} // verus!
