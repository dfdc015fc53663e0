//! Bindings for the `/peers` endpoints: Peer Objects, their tokens and their events.
use vstd::prelude::*;
use vstd::utf8::is_ascii_chars;
use crate::common::lemma_uuid_id_accepted_exactly_when;
use crate::text::byte_len;
use crate::api::ListenStep;
use crate::common::{check_uuid_id, uuid_id_error, deserialize_failure, deserialize_failure_message};
use crate::data::DataConnectionIdWrapper;
use crate::error::{Error, is_local_error};
use crate::media::MediaConnectionIdWrapper;
use crate::text::{has_prefix, starts_with, concat2, concat5};

verus! {

/// Identifier of a Peer Object, chosen by the user.
#[derive(Debug, PartialEq, Eq, PartialOrd, Ord, Hash)]
pub struct PeerId(pub String);

impl View for PeerId {
    type V = Seq<char>;

    open spec fn view(&self) -> Seq<char> {
        self.0@
    }
}

impl PeerId {
    /// The identifier's text.
    pub fn as_str(&self) -> (r: &str)
        ensures
            r@ == self@,
    {
        self.0.as_str()
    }

    /// Creates the identifier; any text is one.
    pub fn new(peer_id: &str) -> (r: Self)
        ensures
            r@ == peer_id@,
    {
        PeerId(peer_id.to_owned())
    }
}

impl Clone for PeerId {
    fn clone(&self) -> (r: Self)
        ensures
            r == *self,
    {
        PeerId(self.0.clone())
    }
}

/// Why a text is not a `Token`, if it is not one.
pub open spec fn token_error(s: Seq<char>) -> Option<Seq<char>> {
    uuid_id_error(s, has_prefix(s, "pt-"@), "token str's prefix is \"pt-\""@)
}

/// A token is accepted exactly when it starts with `"pt-"`, is 39 bytes long and is all ASCII.
pub proof fn lemma_token_accepted_exactly_when(s: Seq<char>)
    ensures
        token_error(s) is None <==> (has_prefix(s, "pt-"@) && byte_len(s) == 39
            && is_ascii_chars(s)),
{
    lemma_uuid_id_accepted_exactly_when(s, has_prefix(s, "pt-"@), "token str's prefix is \"pt-\""@);
}

/// Proves the right to control a Peer Object: `"pt-"` and a UUID.
#[derive(Debug, PartialEq, Eq, PartialOrd, Ord, Hash)]
pub struct Token(String);

impl View for Token {
    type V = Seq<char>;

    closed spec fn view(&self) -> Seq<char> {
        self.0@
    }
}

impl Token {
    #[verifier::type_invariant]
    spec fn is_valid(self) -> bool {
        token_error(self.0@) is None
    }

    /// The token's text, which is always a valid token.
    pub fn as_str(&self) -> (r: &str)
        ensures
            r@ == self@,
            token_error(r@) is None,
    {
        proof {
            use_type_invariant(self);
        }
        self.0.as_str()
    }

    /// Creates the token from its text: it must start with `"pt-"`, be 39 bytes long and be
    /// ASCII, checked in that order; the error names the first that fails.
    pub fn try_create(token: &str) -> (r: Result<Self, Error>)
        ensures
            match token_error(token@) {
                None => r matches Ok(v) && v@ == token@,
                Some(m) => r matches Err(e) && is_local_error(e, m),
            },
    {
        let prefix_ok = starts_with(token, "pt-");
        match check_uuid_id(token, prefix_ok, "token str's prefix is \"pt-\"") {
            Ok(()) => Ok(Token(token.to_owned())),
            Err(e) => Err(e),
        }
    }

    /// Reads a `Token` from the text of a JSON value; on failure, the message to report.
    pub fn from_wire(value: &str) -> (r: Result<Token, String>)
        ensures
            match token_error(value@) {
                None => r matches Ok(v) && v@ == value@,
                Some(m) => r matches Err(s) && s@ == deserialize_failure("Token"@, m),
            },
    {
        match Token::try_create(value) {
            Ok(v) => Ok(v),
            Err(e) => Err(deserialize_failure_message("Token", &e)),
        }
    }
}

impl Clone for Token {
    fn clone(&self) -> (r: Self)
        ensures
            r == *self,
    {
        proof {
            use_type_invariant(self);
        }
        Token(self.0.clone())
    }
}

/// A Peer Object's identifier together with its token.
#[derive(Debug, PartialEq, Eq, PartialOrd, Ord, Hash)]
pub struct PeerInfo {
    peer_id: PeerId,
    token: Token,
}

impl PeerInfo {
    /// The identifier, as a spec value.
    pub closed spec fn spec_peer_id(&self) -> PeerId {
        self.peer_id
    }

    /// The token, as a spec value.
    pub closed spec fn spec_token(&self) -> Token {
        self.token
    }

    /// Pairs an identifier with a token.
    pub fn new(peer_id: PeerId, token: Token) -> (r: Self)
        ensures
            r.spec_peer_id() == peer_id,
            r.spec_token() == token,
    {
        Self { peer_id, token }
    }

    /// Pairs an identifier with a token given as text; fails exactly as `Token::try_create`.
    pub fn try_create(peer_id: &str, token: &str) -> (r: Result<Self, Error>)
        ensures
            match token_error(token@) {
                None => r matches Ok(v) && v.spec_peer_id()@ == peer_id@ && v.spec_token()@
                    == token@,
                Some(m) => r matches Err(e) && is_local_error(e, m),
            },
    {
        let token = match Token::try_create(token) {
            Ok(t) => t,
            Err(e) => return Err(e),
        };
        Ok(PeerInfo { peer_id: PeerId::new(peer_id), token })
    }

    /// The identifier.
    pub fn peer_id(&self) -> (r: PeerId)
        ensures
            r == self.spec_peer_id(),
    {
        self.peer_id.clone()
    }

    /// The token.
    pub fn token(&self) -> (r: Token)
        ensures
            r == self.spec_token(),
    {
        self.token.clone()
    }
}

impl Clone for PeerInfo {
    fn clone(&self) -> (r: Self)
        ensures
            r == *self,
    {
        PeerInfo { peer_id: self.peer_id.clone(), token: self.token.clone() }
    }
}

/// Query of POST /peers.
#[derive(Debug, Clone, PartialEq, PartialOrd)]
pub struct CreatePeerQuery {
    /// SkyWay's API key.
    pub key: String,
    /// Domain registered for the API key.
    pub domain: String,
    /// Identifier the user wants for the Peer Object.
    pub peer_id: PeerId,
    /// Whether to use a TURN server.
    pub turn: bool,
}

/// Reply of POST /peers.
#[derive(Debug, Clone, PartialEq, PartialOrd)]
pub struct CreatedResponse {
    /// Always `"PEERS_CREATE"`.
    pub command_type: String,
    pub params: PeerInfo,
}

/// The Peer Object is registered with the SkyWay server.
#[derive(Debug, Clone, PartialEq, PartialOrd)]
pub struct PeerOpenEvent {
    pub params: PeerInfo,
}

/// The Peer Object is deleted.
#[derive(Debug, Clone, PartialEq, PartialOrd)]
pub struct PeerCloseEvent {
    pub params: PeerInfo,
}

/// An error about the Peer Object.
#[derive(Debug, Clone, PartialEq, PartialOrd)]
pub struct PeerErrorEvent {
    pub params: PeerInfo,
    pub error_message: String,
}

/// A neighbour established a DataConnection with the Peer Object.
#[derive(Debug, Clone, PartialEq, PartialOrd)]
pub struct PeerConnectionEvent {
    pub params: PeerInfo,
    pub data_params: DataConnectionIdWrapper,
}

/// A neighbour asks the Peer Object for a MediaConnection.
#[derive(Debug, Clone, PartialEq, PartialOrd)]
pub struct PeerCallEvent {
    pub params: PeerInfo,
    pub call_params: MediaConnectionIdWrapper,
}

/// Reply of GET /peers/{peer_id}/status.
#[derive(Debug, Clone, PartialEq, PartialOrd)]
pub struct PeerStatusMessage {
    pub peer_id: PeerId,
    pub disconnected: bool,
}

/// Events as GET /peers/{peer_id}/events sends them.
#[derive(Debug, Clone, PartialEq, PartialOrd)]
pub enum EventEnum {
    OPEN(PeerOpenEvent),
    CLOSE(PeerCloseEvent),
    CONNECTION(PeerConnectionEvent),
    CALL(PeerCallEvent),
    ERROR(PeerErrorEvent),
    TIMEOUT,
}

/// Events of a Peer Object, as the bindings hand them to their users.
#[derive(Debug, Clone, PartialEq, PartialOrd)]
pub enum PeerEventEnum {
    OPEN(PeerOpenEvent),
    CLOSE(PeerCloseEvent),
    CONNECTION(PeerConnectionEvent),
    CALL(PeerCallEvent),
    ERROR(PeerErrorEvent),
}

/// The event that a reply of the event endpoint passes on; none for `TIMEOUT`.
pub open spec fn spec_forwarded(reply: EventEnum) -> Option<PeerEventEnum> {
    match reply {
        EventEnum::OPEN(e) => Some(PeerEventEnum::OPEN(e)),
        EventEnum::CLOSE(e) => Some(PeerEventEnum::CLOSE(e)),
        EventEnum::CONNECTION(e) => Some(PeerEventEnum::CONNECTION(e)),
        EventEnum::CALL(e) => Some(PeerEventEnum::CALL(e)),
        EventEnum::ERROR(e) => Some(PeerEventEnum::ERROR(e)),
        EventEnum::TIMEOUT => None,
    }
}

/// What the event endpoint's call comes to when the call failed with `e`: a timed-out poll
/// is a `TIMEOUT` event, anything else stays an error.
pub fn reply_from_failure(e: Error) -> (r: Result<EventEnum, Error>)
    ensures
        is_local_error(e, crate::api::timeout_message()) ==> r == Ok::<EventEnum, Error>(
            EventEnum::TIMEOUT,
        ),
        !is_local_error(e, crate::api::timeout_message()) ==> (r matches Err(f) && f == e),
{
    if crate::api::is_timeout(&e) {
        Ok(EventEnum::TIMEOUT)
    } else {
        Err(e)
    }
}

/// Whether a listener stops after this reply: after `CLOSE`.
pub open spec fn spec_finishes(reply: EventEnum) -> bool {
    reply is CLOSE
}

/// What a listener of a Peer Object does with one reply: it passes on every event but
/// `TIMEOUT`, unchanged, and stops after `CLOSE`.
pub fn listen_step(reply: EventEnum) -> (r: ListenStep<PeerEventEnum>)
    ensures
        r.notify == spec_forwarded(reply),
        r.finished == spec_finishes(reply),
{
    match reply {
        EventEnum::OPEN(e) => ListenStep { notify: Some(PeerEventEnum::OPEN(e)), finished: false },
        EventEnum::CLOSE(e) => ListenStep { notify: Some(PeerEventEnum::CLOSE(e)), finished: true },
        EventEnum::CONNECTION(e) => ListenStep {
            notify: Some(PeerEventEnum::CONNECTION(e)),
            finished: false,
        },
        EventEnum::CALL(e) => ListenStep { notify: Some(PeerEventEnum::CALL(e)), finished: false },
        EventEnum::ERROR(e) => ListenStep {
            notify: Some(PeerEventEnum::ERROR(e)),
            finished: false,
        },
        EventEnum::TIMEOUT => ListenStep { notify: None, finished: false },
    }
}

/// A Peer Object's listener passes on every reply but `TIMEOUT` as the event of the same kind
/// with the same payload (`OPEN`, `CLOSE`, `CONNECTION`, `CALL`, `ERROR`); `TIMEOUT` passes on
/// nothing. It stops after `CLOSE` and after nothing else.
pub proof fn lemma_peer_listener_passes_on_each_event(reply: EventEnum)
    ensures
        spec_forwarded(reply) is None <==> reply is TIMEOUT,
        reply matches EventEnum::OPEN(e) ==> spec_forwarded(reply) == Some(PeerEventEnum::OPEN(e)),
        reply matches EventEnum::CLOSE(e) ==> spec_forwarded(reply) == Some(
            PeerEventEnum::CLOSE(e),
        ),
        reply matches EventEnum::CONNECTION(e) ==> spec_forwarded(reply) == Some(
            PeerEventEnum::CONNECTION(e),
        ),
        reply matches EventEnum::CALL(e) ==> spec_forwarded(reply) == Some(PeerEventEnum::CALL(e)),
        reply matches EventEnum::ERROR(e) ==> spec_forwarded(reply) == Some(
            PeerEventEnum::ERROR(e),
        ),
        spec_finishes(reply) <==> reply is CLOSE,
{
}

/// The message a Peer Object's listener ends with when its observer is gone.
pub open spec fn notify_failure_message() -> Seq<char> {
    "peer_create_and_listen_events send OPEN event, but observer doesn't receive i, but observer doesn't receive it."@
}

/// The error a Peer Object's listener ends with when its observer is gone.
pub fn notify_failure() -> (e: Error)
    ensures
        is_local_error(e, notify_failure_message()),
{
    Error::create_local_error(
        "peer_create_and_listen_events send OPEN event, but observer doesn't receive i, but observer doesn't receive it.",
    )
}

/// The query that asks the gateway for a Peer Object.
pub fn create_query(api_key: &str, domain: &str, peer_id: PeerId, turn: bool) -> (r:
    CreatePeerQuery)
    ensures
        r.key@ == api_key@,
        r.domain@ == domain@,
        r.peer_id == peer_id,
        r.turn == turn,
{
    CreatePeerQuery { key: api_key.to_owned(), domain: domain.to_owned(), peer_id, turn }
}

/// What a reply of POST /peers gives: its Peer Object when the reply is of the command
/// `"PEERS_CREATE"`, else an error that names the command expected.
pub fn created_peer_info(response: CreatedResponse) -> (r: Result<PeerInfo, Error>)
    ensures
        response.command_type@ == "PEERS_CREATE"@ ==> r == Ok::<PeerInfo, Error>(response.params),
        response.command_type@ != "PEERS_CREATE"@ ==> (r matches Err(e) && is_local_error(
            e,
            "recv command_type other than PEERS_CREATE"@,
        )),
{
    if crate::text::same_text(response.command_type.as_str(), "PEERS_CREATE") {
        Ok(response.params)
    } else {
        Err(Error::create_local_error("recv command_type other than PEERS_CREATE"))
    }
}

/// Address of POST /peers.
pub fn create_peer_url(base_url: &str) -> (r: String)
    ensures
        r@ == base_url@ + "/peers"@,
{
    concat2(base_url, "/peers")
}

/// Address of GET /peers/{peer_id}/events?token={token}.
pub fn event_url(base_url: &str, peer_info: &PeerInfo) -> (r: String)
    ensures
        r@ == base_url@ + "/peers/"@ + peer_info.spec_peer_id()@ + "/events?token="@
            + peer_info.spec_token()@,
{
    concat5(
        base_url,
        "/peers/",
        peer_info.peer_id.as_str(),
        "/events?token=",
        peer_info.token.as_str(),
    )
}

/// Address of DELETE /peers/{peer_id}?token={token}.
pub fn delete_peer_url(base_url: &str, peer_info: &PeerInfo) -> (r: String)
    ensures
        r@ == base_url@ + "/peers/"@ + peer_info.spec_peer_id()@ + "?token="@
            + peer_info.spec_token()@,
{
    concat5(base_url, "/peers/", peer_info.peer_id.as_str(), "?token=", peer_info.token.as_str())
}

/// Address of GET /peers/{peer_id}/status?token={token}.
pub fn status_url(base_url: &str, peer_info: &PeerInfo) -> (r: String)
    ensures
        r@ == base_url@ + "/peers/"@ + peer_info.spec_peer_id()@ + "/status?token="@
            + peer_info.spec_token()@,
{
    concat5(
        base_url,
        "/peers/",
        peer_info.peer_id.as_str(),
        "/status?token=",
        peer_info.token.as_str(),
    )
}

} // verus!
