//! The life of one WebSocket connection.
//!
//! A client first asks for a hand-off token ([`setup_ws`]), then opens a
//! socket with it ([`gateway`]). From then on two loops run side by side on
//! the connection: one reads frames, the other sends a heartbeat every
//! `HEARTBEAT_INTERVAL`. Both put what they see to the [`Connection`], which
//! says what to do; whichever loop sees the connection fail cleans up, and
//! the clean-up happens once.

use vstd::prelude::*;

use vstd::string::{StrSliceExecFns, StringExecFns};

use crate::database::wallet::VerifyResponse;
use crate::errors::krist::KristError;
use crate::ids::{parse_uuid, uuid_from_text};
use crate::models::krist::websockets::{WebSocketMessage, WebSocketMessageInner};
use crate::text::{parse_i32, spec_parse_i32};
use crate::websockets::types::common::{
    SessionView, TokenView, WebSocketTokenData, GUEST_ADDRESS,
};
use crate::websockets::utils::make_url::{make_url, spec_insecure, spec_url};
use crate::websockets::{all_taken, WebSocketServer, CLIENT_TIMEOUT, TOKEN_DRAWS};

verus! {

/// The longest text frame that is looked at, in characters.
pub const MAX_MESSAGE_CHARS: usize = 512;

/// How long a hand-off token is good for, in seconds, as the client is told.
pub const TOKEN_EXPIRES: u32 = 30;

/// The message of the day that greets a new connection.
pub const MOTD: &'static str = "Message of the day";

/// What a client is told when it asks for a socket.
#[derive(Debug, Clone, PartialEq)]
pub struct WsStartResponse {
    pub ok: bool,
    pub url: String,
    pub expires: u32,
    /// The id of the token that was issued, which the address ends in. It is
    /// for whoever has to expire the token, not for the client.
    pub token: u128,
}

/// The identity a hand-off token is issued for: the wallet that the private
/// key belongs to, or a guest if no key came with the request. `None` where
/// a key came but could not be checked, or is not the right one for its
/// wallet: the session that the token opens acts for the wallet, so only the
/// wallet's own key gets one.
pub open spec fn spec_token_for(
    private_key: Option<String>,
    verification: Option<&VerifyResponse>,
    computer_id: Option<&str>,
) -> Option<TokenView> {
    let computer_id = match computer_id {
        Some(text) => spec_parse_i32(text@),
        None => None,
    };
    match private_key {
        Some(key) => match verification {
            Some(wallet) => if wallet.authed {
                Some(
                    TokenView {
                        address: wallet.model.address@,
                        private_key: Some(key@),
                        computer_id,
                    },
                )
            } else {
                None
            },
            None => None,
        },
        None => Some(TokenView { address: GUEST_ADDRESS@, private_key: None, computer_id }),
    }
}

/// Issues a hand-off token and tells the client where to open its socket.
///
/// `private_key` is the key in the request, if any, and `verification` what
/// checking it against the store came to (`None` if the check could not be
/// made). `computer_id` is the text of the `X-CC-ID` header; text that is not
/// a number counts as no id. `force_insecure` and `public_url` are the two
/// settings that shape the address.
///
/// A key that could not be checked, or that is not the right one for its
/// wallet, is refused with `AuthFailed`. Otherwise a
/// token is drawn and the address is built. A server that does not know its
/// public address fails with `ServerConfigError`, and so does one for which
/// no free token id could be drawn; a server that knows its address and
/// holds no waiting token always succeeds. Whenever the call fails, the hub
/// is what it was: a token that was issued is taken back.
pub fn setup_ws(
    server: &mut WebSocketServer,
    private_key: Option<String>,
    verification: Option<&VerifyResponse>,
    computer_id: Option<&str>,
    force_insecure: Option<&str>,
    public_url: Option<&str>,
) -> (r: Result<WsStartResponse, KristError>)
    ensures
        final(server).sessions_view() == old(server).sessions_view(),
        r.is_err() ==> final(server).tokens_view() == old(server).tokens_view(),
        match spec_token_for(private_key, verification, computer_id) {
            None => r == Err::<WsStartResponse, KristError>(KristError::AuthFailed),
            Some(token) => {
                &&& match r {
                    Ok(response) => {
                        &&& response.ok
                        &&& response.expires == TOKEN_EXPIRES
                        &&& public_url.is_some()
                        &&& !old(server).tokens_view().contains_key(response.token)
                        &&& final(server).tokens_view() == old(server).tokens_view().insert(
                            response.token,
                            token,
                        )
                        &&& response.url@ == spec_url(
                            spec_insecure(force_insecure),
                            public_url.unwrap()@,
                            response.token,
                        )
                    },
                    Err(e) => {
                        &&& e == KristError::ServerConfigError
                        &&& public_url.is_some() ==> exists|draws: Seq<u128>|
                            draws.len() == TOKEN_DRAWS && #[trigger] all_taken(
                                old(server).tokens_view(),
                                draws,
                            )
                    },
                }
                &&& public_url.is_none() ==> r == Err::<WsStartResponse, KristError>(
                    KristError::ServerConfigError,
                )
                &&& public_url.is_some() && (forall|id: u128|
                    !old(server).tokens_view().contains_key(id)) ==> r.is_ok()
            },
        },
{
    let computer_id = match computer_id {
        Some(text) => parse_i32(text),
        None => None,
    };
    let token_data = match private_key {
        Some(key) => match verification {
            Some(wallet) => {
                if !wallet.authed {
                    return Err(KristError::AuthFailed);
                }
                WebSocketTokenData::new(wallet.model.address.clone(), Some(key), computer_id)
            },
            None => {
                return Err(KristError::AuthFailed);
            },
        },
        None => WebSocketTokenData::new(
            String::from_str(GUEST_ADDRESS),
            None,
            computer_id,
        ),
    };
    let uuid = match server.obtain_token(token_data) {
        Some(uuid) => uuid,
        None => {
            return Err(KristError::ServerConfigError);
        },
    };
    match make_url(force_insecure, public_url, uuid) {
        Ok(url) => Ok(WsStartResponse { ok: true, url, expires: TOKEN_EXPIRES, token: uuid }),
        Err(_) => {
            server.expire_token(&uuid);
            assert(server.tokens_view() =~= old(server).tokens_view());
            Err(KristError::ServerConfigError)
        },
    }
}

/// Where a connection stands.
#[derive(Debug, Clone, Copy, PartialEq, Eq, Structural)]
pub enum ConnectionState {
    /// The socket was accepted and the greeting is on its way.
    HelloPending,
    /// Frames are read and heartbeats are sent.
    Active,
    /// The client asked to close and the close is being sent back.
    Closing,
    /// The connection is over and its session is gone from the hub.
    Dead,
}

/// The state of one connection.
#[derive(Debug, Clone, Copy, PartialEq, Eq, Structural)]
pub struct Connection {
    pub uuid: u128,
    pub state: ConnectionState,
    /// When the client last answered a ping, in milliseconds on the clock
    /// that the heartbeat reads.
    pub last_pong_at: i64,
    /// Whether the clean-up has been done.
    pub closed: bool,
}

/// A frame that arrived.
#[derive(Debug, PartialEq)]
pub enum Frame {
    Ping(Vec<u8>),
    Pong,
    Text(String),
    Binary,
    Close,
}

/// What to do about a frame that arrived.
#[derive(Debug, PartialEq)]
pub enum FrameAction {
    /// Send a pong with this payload; if that fails, stop reading.
    Pong(Vec<u8>),
    /// Hand the text to the request handler and send its answer.
    Dispatch(String),
    /// Send this error frame: the text was too long to be looked at.
    TooLong(WebSocketMessage),
    /// Send the close back, clean up and stop reading.
    CloseBack,
    /// Nothing to send: the client is alive.
    Alive,
    /// Nothing at all.
    Ignore,
}

/// What to do when the heartbeat is due.
#[derive(Debug, Clone, Copy, PartialEq, Eq, Structural)]
pub enum HeartbeatAction {
    /// The connection was cleaned up already: stop.
    Stop,
    /// The client has been silent for too long: clean up and stop, without
    /// a closing handshake, which could block on a dead peer.
    TimedOut,
    /// Send a ping. If that fails, clean up and stop; otherwise send the
    /// keepalive frame, whose failure is only logged.
    Ping,
}

/// Whether a client that last answered at `last_pong_at` has been silent for
/// too long at `now`.
pub open spec fn spec_timed_out(last_pong_at: i64, now: i64) -> bool {
    now - last_pong_at > CLIENT_TIMEOUT
}

/// What the hub and the connection are after a token was presented: the
/// token is taken, and if it was good a session stands under its id.
pub open spec fn spec_accept(
    tokens: Map<u128, TokenView>,
    sessions: Map<u128, SessionView>,
    parsed: Option<u128>,
) -> (Option<u128>, Map<u128, TokenView>, Map<u128, SessionView>) {
    match parsed {
        Some(uuid) => if tokens.contains_key(uuid) {
            (
                Some(uuid),
                tokens.remove(uuid),
                if sessions.contains_key(uuid) {
                    sessions
                } else {
                    sessions.insert(uuid, SessionView::fresh(tokens[uuid]))
                },
            )
        } else {
            (None, tokens, sessions)
        },
        None => (None, tokens, sessions),
    }
}

impl Connection {
    /// Accepts the connection that presents the token `parsed` at `now`,
    /// where `parsed` is the identifier the token text spelled, if it
    /// spelled one. A good token is taken and cannot be presented again, a
    /// session with the token's identity and the default subscriptions is
    /// registered under the token's id, and the greeting is returned for
    /// sending. Anything else is refused and changes nothing.
    pub fn accept(server: &mut WebSocketServer, parsed: Option<u128>, now: i64) -> (r: Result<
        (Connection, WebSocketMessage),
        KristError,
    >)
        ensures
            ({
                let (accepted, tokens, sessions) = spec_accept(
                    old(server).tokens_view(),
                    old(server).sessions_view(),
                    parsed,
                );
                &&& final(server).tokens_view() == tokens
                &&& final(server).sessions_view() == sessions
                &&& match r {
                    Ok((connection, hello)) => {
                        &&& accepted.is_some()
                        &&& connection == (Connection {
                            uuid: accepted.unwrap(),
                            state: ConnectionState::HelloPending,
                            last_pong_at: now,
                            closed: false,
                        })
                        &&& hello.ok == Some(true)
                        &&& hello.id.is_none()
                        &&& hello.inner matches WebSocketMessageInner::Hello { server_time, motd }
                            && server_time == now && motd@ == MOTD@
                    },
                    Err(e) => accepted.is_none() && e == KristError::InvalidWebsocketToken,
                }
            }),
    {
        let uuid = match parsed {
            Some(uuid) => uuid,
            None => {
                return Err(KristError::InvalidWebsocketToken);
            },
        };
        let data = match server.use_token(&uuid) {
            Ok(data) => data,
            Err(_) => {
                return Err(KristError::InvalidWebsocketToken);
            },
        };
        server.insert_session(uuid, data);
        let connection = Connection {
            uuid,
            state: ConnectionState::HelloPending,
            last_pong_at: now,
            closed: false,
        };
        Ok((connection, WebSocketMessage::hello(now, MOTD)))
    }

    /// The greeting went out: frames are read from now on.
    pub fn hello_sent(&mut self)
        ensures
            *final(self) == if old(self).state == ConnectionState::HelloPending {
                Connection { state: ConnectionState::Active, ..*old(self) }
            } else {
                *old(self)
            },
    {
        if self.state == ConnectionState::HelloPending {
            self.state = ConnectionState::Active;
        }
    }

    /// The connection after `frame` arrived at `now`.
    pub open spec fn spec_after_frame(self, frame: Frame, now: i64) -> Connection {
        if self.closed || self.state == ConnectionState::Dead || self.state
            == ConnectionState::Closing {
            self
        } else {
            match frame {
                Frame::Pong => Connection { last_pong_at: now, ..self },
                Frame::Close => Connection { state: ConnectionState::Closing, ..self },
                _ => self,
            }
        }
    }

    /// Decides what to do about a frame that arrived at `now`.
    ///
    /// A ping is answered with a pong of the same payload. A pong shows that
    /// the client is alive. A close is sent back. Text of at most
    /// `MAX_MESSAGE_CHARS` characters is handed on as a request; longer
    /// text is answered with the error `message_too_long`. Binary frames
    /// are ignored, and so is everything on a connection that is over.
    pub fn on_frame(&mut self, frame: Frame, now: i64) -> (r: FrameAction)
        ensures
            *final(self) == old(self).spec_after_frame(frame, now),
            if old(self).closed || old(self).state == ConnectionState::Dead || old(self).state
                == ConnectionState::Closing {
                r is Ignore
            } else {
                match frame {
                    Frame::Ping(payload) => r matches FrameAction::Pong(p) && p@ == payload@,
                    Frame::Pong => r is Alive,
                    Frame::Close => r is CloseBack,
                    Frame::Binary => r is Ignore,
                    Frame::Text(text) => if text@.len() <= MAX_MESSAGE_CHARS {
                        r matches FrameAction::Dispatch(t) && t@ == text@
                    } else {
                        r matches FrameAction::TooLong(m) && m.is_error(None, "message_too_long"@)
                    },
                }
            },
    {
        if self.closed || self.state == ConnectionState::Dead || self.state
            == ConnectionState::Closing {
            return FrameAction::Ignore;
        }
        match frame {
            Frame::Ping(payload) => FrameAction::Pong(payload),
            Frame::Pong => {
                self.last_pong_at = now;
                FrameAction::Alive
            },
            Frame::Close => {
                self.state = ConnectionState::Closing;
                FrameAction::CloseBack
            },
            Frame::Binary => FrameAction::Ignore,
            Frame::Text(text) => {
                if text.as_str().unicode_len() > MAX_MESSAGE_CHARS {
                    FrameAction::TooLong(
                        WebSocketMessage::error(
                            None,
                            "message_too_long",
                            "Message larger than 512 characters",
                        ),
                    )
                } else {
                    FrameAction::Dispatch(text)
                }
            },
        }
    }

    /// Decides at `now` what the heartbeat does.
    pub fn on_heartbeat(&self, now: i64) -> (r: HeartbeatAction)
        ensures
            r == if self.closed {
                HeartbeatAction::Stop
            } else if spec_timed_out(self.last_pong_at, now) {
                HeartbeatAction::TimedOut
            } else {
                HeartbeatAction::Ping
            },
    {
        if self.closed {
            HeartbeatAction::Stop
        } else if now as i128 - self.last_pong_at as i128 > CLIENT_TIMEOUT as i128 {
            HeartbeatAction::TimedOut
        } else {
            HeartbeatAction::Ping
        }
    }

    /// The frame that follows a ping that went out at `now`.
    pub fn keepalive(&self, now: i64) -> (r: WebSocketMessage)
        ensures
            r.ok.is_none(),
            r.id.is_none(),
            r.inner == (WebSocketMessageInner::Keepalive { server_time: now }),
    {
        WebSocketMessage::keepalive(now)
    }

    /// Cleans the connection up: its session leaves the hub. Whoever calls
    /// first does the work; every later call finds it done and touches
    /// nothing. The result tells which it was.
    pub fn cleanup(&mut self, server: &mut WebSocketServer) -> (did: bool)
        ensures
            did == !old(self).closed,
            *final(self) == if old(self).closed {
                *old(self)
            } else {
                Connection { closed: true, state: ConnectionState::Dead, ..*old(self) }
            },
            final(server).sessions_view() == if old(self).closed {
                old(server).sessions_view()
            } else {
                old(server).sessions_view().remove(old(self).uuid)
            },
            final(server).tokens_view() == old(server).tokens_view(),
    {
        if self.closed {
            false
        } else {
            self.closed = true;
            self.state = ConnectionState::Dead;
            server.cleanup_session(&self.uuid);
            true
        }
    }
}

/// A session leaves the hub once. After the first clean-up of a connection
/// the flag is set, so every later clean-up does nothing, whatever happened
/// to the hub in between.
pub proof fn lemma_cleanup_once(connection: Connection)
    ensures
        ({
            let first = if connection.closed {
                connection
            } else {
                Connection { closed: true, state: ConnectionState::Dead, ..connection }
            };
            let second = if first.closed {
                first
            } else {
                Connection { closed: true, state: ConnectionState::Dead, ..first }
            };
            first.closed && second == first
        }),
{
}

/// Opens the connection that presents `token` at `now`: see
/// [`Connection::accept`].
pub fn gateway(server: &mut WebSocketServer, token: &str, now: i64) -> (r: Result<
    (Connection, WebSocketMessage),
    KristError,
>)
    ensures
        ({
            let (accepted, tokens, sessions) = spec_accept(
                old(server).tokens_view(),
                old(server).sessions_view(),
                uuid_from_text(token@),
            );
            &&& final(server).tokens_view() == tokens
            &&& final(server).sessions_view() == sessions
            &&& match r {
                Ok((connection, hello)) => {
                    &&& accepted.is_some()
                    &&& connection == (Connection {
                        uuid: accepted.unwrap(),
                        state: ConnectionState::HelloPending,
                        last_pong_at: now,
                        closed: false,
                    })
                    &&& hello.ok == Some(true)
                    &&& hello.id.is_none()
                    &&& hello.inner matches WebSocketMessageInner::Hello { server_time, motd }
                        && server_time == now && motd@ == MOTD@
                },
                Err(e) => accepted.is_none() && e == KristError::InvalidWebsocketToken,
            }
        }),
{
    let parsed = parse_uuid(token);
    Connection::accept(server, parsed, now)
}

} // verus!
