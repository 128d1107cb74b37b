//! Per-event decisions: routing a readiness token to accept, timer or
//! connection handling, and relaying one buffer's worth of bytes.

use vstd::prelude::*;
use crate::server::{same_config, ConnLog, Link, Server, Token};

verus! {

/// Which of the three readiness sources a wakeup belongs to.
#[derive(Clone, Copy, PartialEq, Eq, Debug, Structural)]
pub enum TokenClass {
    /// The listening socket: attempt one accept.
    Acceptor,
    /// The timer facility: drain expired timers and evict their connections.
    TimerFacility,
    /// Any other token: resolve it to a connection and relay.
    Connection,
}

/// The direction of one relay step.
#[derive(Clone, Copy, PartialEq, Eq, Debug, Structural)]
pub enum Direction {
    /// Client socket readable: move bytes from the socket to the child's input.
    NetToChild,
    /// Child output readable: move bytes from the child's output to the socket.
    ChildToNet,
}

/// Why a relay step tears its connection down.
#[derive(Clone, Copy, PartialEq, Eq, Debug, Structural)]
pub enum RelayError {
    /// Zero-length read from the socket: the peer closed its write side.
    ConnectionReset,
    /// Zero-length read from the child's output: the child exited or closed it.
    ConnectionAborted,
}

/// What the dispatcher must now do for one relay step: write `bytes` whole to
/// the destination that `dir` names, then cancel the connection's outstanding
/// idle timer and arm a new one of the fixed duration carrying `rearm_tok`.
#[derive(Debug)]
pub struct ForwardPlan {
    /// Where the bytes go: to the child's input or to the client socket.
    pub dir: Direction,
    /// The bytes to write, exactly the bytes that were read, in order.
    pub bytes: Vec<u8>,
    /// The token the fresh idle timer must carry: the connection's timeout
    /// token, stable across rearms so the registry mapping stays valid.
    pub rearm_tok: Token,
}

impl Direction {
    /// The other direction of the same connection.
    pub open spec fn opposite(self) -> Direction {
        match self {
            Direction::NetToChild => Direction::ChildToNet,
            Direction::ChildToNet => Direction::NetToChild,
        }
    }
}

/// `r` directs a forward of exactly `data` in direction `dir`, rearming the
/// idle timer under `rearm_tok`.
pub open spec fn forwards(
    r: Result<Option<ForwardPlan>, RelayError>,
    dir: Direction,
    data: Seq<u8>,
    rearm_tok: Token,
) -> bool {
    match r {
        Ok(Some(plan)) => plan.dir == dir && plan.bytes@ == data && plan.rearm_tok == rearm_tok,
        _ => false,
    }
}

/// The relay history of `g` extended by `data` flowing from the socket to the
/// child's input.
pub open spec fn log_push_net(g: ConnLog, data: Seq<u8>) -> ConnLog {
    ConnLog { from_net: g.from_net + data, from_child: g.from_child }
}

/// The relay history of `g` extended by `data` flowing from the child's
/// output to the socket.
pub open spec fn log_push_child(g: ConnLog, data: Seq<u8>) -> ConnLog {
    ConnLog { from_net: g.from_net, from_child: g.from_child + data }
}

/// The full decision contract of one relay step on `(link, tk)` with the
/// bytes `data` that were read: a stale link or a non-I/O token is a no-op; a
/// zero-length read is the error naming who closed; otherwise exactly the
/// bytes read are forwarded, in order, the idle timer is rearmed under the
/// connection's stable timeout token, and the connection's relay history
/// grows by `data` on the side that fired.
pub open spec fn relay_decision(
    pre: Server,
    post: Server,
    link: Link,
    tk: Token,
    data: Seq<u8>,
    r: Result<Option<ForwardPlan>, RelayError>,
) -> bool {
    match pre.direction_spec(link, tk) {
        None => r == Ok::<Option<ForwardPlan>, RelayError>(None) && post.relay_log
            == pre.relay_log,
        Some(Direction::NetToChild) => if data.len() == 0 {
            r == Err::<Option<ForwardPlan>, RelayError>(RelayError::ConnectionReset)
                && post.relay_log == pre.relay_log
        } else {
            &&& forwards(r, Direction::NetToChild, data, pre.connections@[link].timeout_tok)
            &&& post.relay_log@ == pre.relay_log@.insert(
                link,
                log_push_net(pre.relay_log@[link], data),
            )
        },
        Some(Direction::ChildToNet) => if data.len() == 0 {
            r == Err::<Option<ForwardPlan>, RelayError>(RelayError::ConnectionAborted)
                && post.relay_log == pre.relay_log
        } else {
            &&& forwards(r, Direction::ChildToNet, data, pre.connections@[link].timeout_tok)
            &&& post.relay_log@ == pre.relay_log@.insert(
                link,
                log_push_child(pre.relay_log@[link], data),
            )
        },
    }
}

impl Server {
    /// How a wakeup on `tk` is routed.
    pub open spec fn classify_spec(self, tk: Token) -> TokenClass {
        if tk == self.acceptor_token {
            TokenClass::Acceptor
        } else if tk == self.timer_token {
            TokenClass::TimerFacility
        } else {
            TokenClass::Connection
        }
    }

    /// Route one readiness token: the listener's token means accept, the
    /// timer facility's token means drain expired timers, anything else is a
    /// (possible) connection token.
    pub fn classify_token(&self, tk: Token) -> (c: TokenClass)
        ensures
            c == self.classify_spec(tk),
    {
        if tk == self.acceptor_token {
            TokenClass::Acceptor
        } else if tk == self.timer_token {
            TokenClass::TimerFacility
        } else {
            TokenClass::Connection
        }
    }

    /// The direction in which `tk` moves bytes for `link`, if any: `None`
    /// when the link is not open or the token is neither I/O token of it.
    pub open spec fn direction_spec(self, link: Link, tk: Token) -> Option<Direction> {
        if !self.connections@.contains_key(link) {
            None
        } else {
            let c = self.connections@[link];
            if tk == c.net_in_tok {
                Some(Direction::NetToChild)
            } else if tk == c.child_out_tok {
                Some(Direction::ChildToNet)
            } else {
                None
            }
        }
    }

    /// Which side of the connection must be read for this wakeup. `None`
    /// (stale link, or the timeout token arriving here) means no-op.
    pub fn relay_direction(&self, link: Link, tk: Token) -> (d: Option<Direction>)
        ensures
            d == self.direction_spec(link, tk),
    {
        match self.connections.get(&link) {
            Some(c) => {
                if tk == c.net_in_tok {
                    Some(Direction::NetToChild)
                } else if tk == c.child_out_tok {
                    Some(Direction::ChildToNet)
                } else {
                    None
                }
            },
            None => None,
        }
    }

    /// Decide one relay step for `(link, tk)` given the bytes just read from
    /// the side that fired. Registry, table and generators are untouched; the
    /// returned plan forwards exactly the bytes read, in order, and names the
    /// connection's stable timeout token for the rearm.
    pub fn process_link_token(&mut self, link: Link, tk: Token, data: &[u8]) -> (r: Result<
        Option<ForwardPlan>,
        RelayError,
    >)
        requires
            old(self).wf(),
        ensures
            final(self).wf(),
            final(self).tok_to_link@ == old(self).tok_to_link@,
            final(self).connections@ == old(self).connections@,
            final(self).tok_gen == old(self).tok_gen,
            final(self).link_gen == old(self).link_gen,
            same_config(*final(self), *old(self)),
            relay_decision(*old(self), *final(self), link, tk, data@, r),
    {
        let net_in_tok;
        let child_out_tok;
        let timeout_tok;
        match self.connections.get(&link) {
            Some(c) => {
                net_in_tok = c.net_in_tok;
                child_out_tok = c.child_out_tok;
                timeout_tok = c.timeout_tok;
            },
            None => {
                return Ok(None);
            },
        }
        if tk == net_in_tok {
            if data.len() == 0 {
                return Err(RelayError::ConnectionReset);
            }
            let bytes = vstd::slice::slice_to_vec(data);
            self.relay_log = Ghost(
                self.relay_log@.insert(link, log_push_net(self.relay_log@[link], data@)),
            );
            Ok(Some(ForwardPlan { dir: Direction::NetToChild, bytes, rearm_tok: timeout_tok }))
        } else if tk == child_out_tok {
            if data.len() == 0 {
                return Err(RelayError::ConnectionAborted);
            }
            let bytes = vstd::slice::slice_to_vec(data);
            self.relay_log = Ghost(
                self.relay_log@.insert(link, log_push_child(self.relay_log@[link], data@)),
            );
            Ok(Some(ForwardPlan { dir: Direction::ChildToNet, bytes, rearm_tok: timeout_tok }))
        } else {
            Ok(None)
        }
    }
}

} // verus!
