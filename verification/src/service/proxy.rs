//! Proxy sub-service: forwards a request to an upstream server and returns
//! the response sent by that server. If the client wants to upgrade the
//! connection and the server agrees by sending a `101` status code, then a
//! TCP tunnel that forwards traffic bidirectionally is set up.
//!
//! Dialing, sending and receiving are left to the caller. A [`Forwarding`]
//! says what to do next ([`Plan`]) and is told how it went ([`Outcome`]).

use crate::config::SocketAddress;
use crate::http::request::ProxyRequest;
use crate::http::response::{bare, LocalResponse, LocalResponseView};
use vstd::prelude::*;

verus! {

/// Status code of `101 Switching Protocols`.
pub const SWITCHING_PROTOCOLS: u16 = 101;

/// How the last step went.
#[derive(Debug, PartialEq, Eq, Clone, Copy, Structural)]
pub enum Outcome {
    /// Whether the upstream server could be dialed.
    Dialed { connected: bool },
    /// Whether the HTTP handshake on the upstream connection succeeded.
    Handshaken { established: bool },
    /// The request could not be sent or no valid response came back.
    Broken,
    /// The upstream server responded with this status code.
    Responded { status: u16 },
}

/// What to do next with a request that is forwarded.
#[derive(Debug, PartialEq, Eq)]
pub enum Plan {
    /// Perform the HTTP handshake on the upstream connection and keep the
    /// connection running for the duration of the request.
    Handshake,
    /// Send the request upstream with its `Forwarded` header. If `upgrade`
    /// is set, the request asks for an upgrade: detach the upgrade handle of
    /// the client from the request before it is sent, and keep it.
    Send { upgrade: bool },
    /// Both sides agreed to upgrade: detach the upgrade handle of the
    /// server from the response and spawn the tunnel with both handles, then
    /// return the response of the upstream server.
    Tunnel,
    /// Return the response of the upstream server.
    Return,
    /// Return this response instead of one of the upstream server.
    Respond(LocalResponse),
    /// Give up on the connection with the HTTP error that occurred.
    Fail,
}

/// What a [`Plan`] says.
pub enum PlanView {
    Handshake,
    Send { upgrade: bool },
    Tunnel,
    Return,
    Respond(LocalResponseView),
    Fail,
}

impl View for Plan {
    type V = PlanView;

    open spec fn view(&self) -> PlanView {
        match *self {
            Plan::Handshake => PlanView::Handshake,
            Plan::Send { upgrade } => PlanView::Send { upgrade },
            Plan::Tunnel => PlanView::Tunnel,
            Plan::Return => PlanView::Return,
            Plan::Respond(response) => PlanView::Respond(response@),
            Plan::Fail => PlanView::Fail,
        }
    }
}

/// How far a forwarded request has come.
#[derive(Debug, PartialEq, Eq, Clone, Copy, Structural)]
pub enum Progress {
    /// Dialing the upstream server.
    Dialing,
    /// Performing the HTTP handshake.
    Handshaking,
    /// Waiting for the response.
    Sending,
    /// Nothing is left to do.
    Done,
}

/// One request on its way to an upstream server and back. The first thing
/// to do is to dial the server.
#[derive(Debug, PartialEq, Eq, Clone, Copy, Structural)]
pub struct Forwarding {
    /// The upstream server.
    pub to: SocketAddress,
    /// Whether the request bears an `Upgrade` header.
    pub upgrade: bool,
    /// How far the request has come.
    pub progress: Progress,
}

impl Forwarding {
    /// This forwarding, further on.
    pub open spec fn at(self, progress: Progress) -> Forwarding {
        Forwarding { progress, ..self }
    }

    /// The forwarding after `outcome`, and what to do next.
    ///
    /// 1. If the upstream server cannot be dialed, the answer is `502 Bad
    ///    Gateway`.
    /// 2. Handshake and sending follow; an HTTP error in either of them ends
    ///    the connection of the client.
    /// 3. If the upstream server switches protocols (`101`), the client must
    ///    have asked for it: then the tunnel is set up, otherwise the answer
    ///    is `502 Bad Gateway`.
    /// 4. The response of the upstream server is returned.
    ///
    /// An outcome of something that was not asked for is answered with `502
    /// Bad Gateway`.
    pub open spec fn next(self, outcome: Outcome) -> (Forwarding, PlanView) {
        match (self.progress, outcome) {
            (Progress::Dialing, Outcome::Dialed { connected: true }) => (
                self.at(Progress::Handshaking),
                PlanView::Handshake,
            ),
            (Progress::Handshaking, Outcome::Handshaken { established: true }) => (
                self.at(Progress::Sending),
                PlanView::Send { upgrade: self.upgrade },
            ),
            (Progress::Handshaking, Outcome::Handshaken { established: false }) => (
                self.at(Progress::Done),
                PlanView::Fail,
            ),
            (Progress::Sending, Outcome::Broken) => (self.at(Progress::Done), PlanView::Fail),
            (Progress::Sending, Outcome::Responded { status }) => (
                self.at(Progress::Done),
                if status != SWITCHING_PROTOCOLS {
                    PlanView::Return
                } else if self.upgrade {
                    PlanView::Tunnel
                } else {
                    PlanView::Respond(bare(502))
                },
            ),
            _ => (self.at(Progress::Done), PlanView::Respond(bare(502))),
        }
    }

    /// Begins to forward a request to the server at `to`. `upgrade` says
    /// whether the request bears an `Upgrade` header.
    pub fn begin(to: SocketAddress, upgrade: bool) -> (forwarding: Self)
        ensures
            forwarding == (Forwarding { to, upgrade, progress: Progress::Dialing }),
    {
        Forwarding { to, upgrade, progress: Progress::Dialing }
    }

    /// Takes in how the last step went and says what to do next.
    pub fn advance(&mut self, outcome: Outcome) -> (plan: Plan)
        ensures
            (*final(self), plan@) == old(self).next(outcome),
    {
        match (self.progress, outcome) {
            (Progress::Dialing, Outcome::Dialed { connected: true }) => {
                self.progress = Progress::Handshaking;
                Plan::Handshake
            },
            (Progress::Handshaking, Outcome::Handshaken { established: true }) => {
                self.progress = Progress::Sending;
                Plan::Send { upgrade: self.upgrade }
            },
            (Progress::Handshaking, Outcome::Handshaken { established: false }) => {
                self.progress = Progress::Done;
                Plan::Fail
            },
            (Progress::Sending, Outcome::Broken) => {
                self.progress = Progress::Done;
                Plan::Fail
            },
            (Progress::Sending, Outcome::Responded { status }) => {
                self.progress = Progress::Done;
                if status != SWITCHING_PROTOCOLS {
                    Plan::Return
                } else if self.upgrade {
                    Plan::Tunnel
                } else {
                    Plan::Respond(LocalResponse::bad_gateway())
                }
            },
            _ => {
                self.progress = Progress::Done;
                Plan::Respond(LocalResponse::bad_gateway())
            },
        }
    }
}

/// Begins to forward `request` to the server at `to`. The first thing to do
/// is to dial the server.
pub fn forward<T>(request: &ProxyRequest<T>, to: SocketAddress) -> (forwarding: Forwarding)
    ensures
        forwarding == (Forwarding {
            to,
            upgrade: request.header_lines().contains_key("upgrade"@),
            progress: Progress::Dialing,
        }),
{
    Forwarding::begin(to, request.wants_upgrade())
}

/// A tunnel needs two to agree. It is set up only for a request that asked
/// for an upgrade, and only when the upstream server answered that request
/// with `101 Switching Protocols`; and a `101` to a request that did not ask
/// never reaches the client.
pub proof fn lemma_tunnel_needs_both(forwarding: Forwarding, outcome: Outcome)
    ensures
        forwarding.next(outcome).1 is Tunnel <==> forwarding.progress == Progress::Sending
            && forwarding.upgrade && outcome == (Outcome::Responded {
            status: SWITCHING_PROTOCOLS,
        }),
        forwarding.next(outcome).1 is Return ==> outcome is Responded && outcome->status
            != SWITCHING_PROTOCOLS,
        forwarding.next(outcome).1 matches PlanView::Send { upgrade } ==> upgrade
            == forwarding.upgrade,
{
}

/// An upstream server that cannot be reached gives `502 Bad Gateway`.
pub proof fn lemma_bad_gateway_when_down(to: SocketAddress, upgrade: bool)
    ensures
        (Forwarding { to, upgrade, progress: Progress::Dialing }).next(
            Outcome::Dialed { connected: false },
        ).1 == PlanView::Respond(bare(502)),
{
}

} // verus!
