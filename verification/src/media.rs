//! Bindings for the `/media` endpoints: the sockets that feed media and RTCP, and
//! MediaConnections.
use vstd::prelude::*;
use vstd::utf8::is_ascii_chars;
use crate::common::lemma_uuid_id_accepted_exactly_when;
use crate::text::byte_len;
use crate::api::ListenStep;
use crate::common::{
    SerializableId, PhantomId, SocketInfo, check_uuid_id, uuid_id_error, deserialize_failure,
    deserialize_failure_message,
};
use crate::error::{Error, is_local_error};
use crate::peer::{PeerId, Token};
use crate::text::{has_prefix, starts_with, concat2, concat3, concat4};

verus! {

/// Why a text is not a `MediaId`, if it is not one.
pub open spec fn media_id_error(s: Seq<char>) -> Option<Seq<char>> {
    uuid_id_error(
        s,
        has_prefix(s, "vi-"@) || has_prefix(s, "au-"@),
        "media_id's prefix is \"vi-\" or \"au-\""@,
    )
}

/// A `MediaId` is accepted exactly when it starts with `"vi-"` or `"au-"`, is 39 bytes long
/// and is all ASCII.
pub proof fn lemma_media_id_accepted_exactly_when(s: Seq<char>)
    ensures
        media_id_error(s) is None <==> ((has_prefix(s, "vi-"@) || has_prefix(s, "au-"@))
            && byte_len(s) == 39 && is_ascii_chars(s)),
{
    lemma_uuid_id_accepted_exactly_when(
        s,
        has_prefix(s, "vi-"@) || has_prefix(s, "au-"@),
        "media_id's prefix is \"vi-\" or \"au-\""@,
    );
}

/// Identifier of a socket that feeds media: `"vi-"` (video) or `"au-"` (audio) and a UUID.
#[derive(Debug, PartialEq, Eq, PartialOrd, Ord, Hash)]
pub struct MediaId(String);

impl MediaId {
    #[verifier::type_invariant]
    spec fn is_valid(self) -> bool {
        media_id_error(self.0@) is None
    }

    /// Reads a `MediaId` from the text of a JSON value; on failure, the message to report.
    pub fn from_wire(value: &str) -> (r: Result<MediaId, String>)
        ensures
            match media_id_error(value@) {
                None => r matches Ok(v) && v.spec_str() == value@,
                Some(m) => r matches Err(s) && s@ == deserialize_failure("MediaId"@, m),
            },
    {
        match MediaId::try_create(value) {
            Ok(v) => Ok(v),
            Err(e) => Err(deserialize_failure_message("MediaId", &e)),
        }
    }
}

impl SerializableId for MediaId {
    closed spec fn spec_str(&self) -> Seq<char> {
        self.0@
    }

    open spec fn spec_key() -> Seq<char> {
        "media_id"@
    }

    open spec fn spec_accepts(s: Seq<char>) -> bool {
        media_id_error(s) is None
    }

    proof fn lemma_key_shape() {
        reveal_strlit("media_id");
        reveal_strlit("_id");
        assert("media_id"@.subrange(5, 8) =~= "_id"@);
    }

    fn try_create(id: &str) -> (r: Result<Self, Error>)
        ensures
            match media_id_error(id@) {
                None => r matches Ok(v) && v.spec_str() == id@,
                Some(m) => r matches Err(e) && is_local_error(e, m),
            },
    {
        let prefix_ok = starts_with(id, "vi-") || starts_with(id, "au-");
        match check_uuid_id(id, prefix_ok, "media_id's prefix is \"vi-\" or \"au-\"") {
            Ok(()) => Ok(MediaId(id.to_owned())),
            Err(e) => Err(e),
        }
    }

    fn as_str(&self) -> (r: &str)
        ensures
            media_id_error(r@) is None,
    {
        proof {
            use_type_invariant(self);
        }
        self.0.as_str()
    }

    fn id(&self) -> (r: String) {
        self.0.clone()
    }

    fn key(&self) -> (r: &'static str) {
        "media_id"
    }
}

impl Clone for MediaId {
    fn clone(&self) -> (r: Self)
        ensures
            r == *self,
    {
        proof {
            use_type_invariant(self);
        }
        MediaId(self.0.clone())
    }
}

/// Why a text is not an `RtcpId`, if it is not one.
pub open spec fn rtcp_id_error(s: Seq<char>) -> Option<Seq<char>> {
    uuid_id_error(s, has_prefix(s, "rc-"@), "rtcp_id's prefix is \"rc-\""@)
}

/// An `RtcpId` is accepted exactly when it starts with `"rc-"`, is 39 bytes long and is all
/// ASCII.
pub proof fn lemma_rtcp_id_accepted_exactly_when(s: Seq<char>)
    ensures
        rtcp_id_error(s) is None <==> (has_prefix(s, "rc-"@) && byte_len(s) == 39
            && is_ascii_chars(s)),
{
    lemma_uuid_id_accepted_exactly_when(s, has_prefix(s, "rc-"@), "rtcp_id's prefix is \"rc-\""@);
}

/// Identifier of a socket that feeds RTCP: `"rc-"` and a UUID.
#[derive(Debug, PartialEq, Eq, PartialOrd, Ord, Hash)]
pub struct RtcpId(String);

impl RtcpId {
    #[verifier::type_invariant]
    spec fn is_valid(self) -> bool {
        rtcp_id_error(self.0@) is None
    }

    /// Reads an `RtcpId` from the text of a JSON value; on failure, the message to report.
    pub fn from_wire(value: &str) -> (r: Result<RtcpId, String>)
        ensures
            match rtcp_id_error(value@) {
                None => r matches Ok(v) && v.spec_str() == value@,
                Some(m) => r matches Err(s) && s@ == deserialize_failure("RtcpId"@, m),
            },
    {
        match RtcpId::try_create(value) {
            Ok(v) => Ok(v),
            Err(e) => Err(deserialize_failure_message("RtcpId", &e)),
        }
    }
}

impl SerializableId for RtcpId {
    closed spec fn spec_str(&self) -> Seq<char> {
        self.0@
    }

    open spec fn spec_key() -> Seq<char> {
        "rtcp_id"@
    }

    open spec fn spec_accepts(s: Seq<char>) -> bool {
        rtcp_id_error(s) is None
    }

    proof fn lemma_key_shape() {
        reveal_strlit("rtcp_id");
        reveal_strlit("_id");
        assert("rtcp_id"@.subrange(4, 7) =~= "_id"@);
    }

    fn try_create(id: &str) -> (r: Result<Self, Error>)
        ensures
            match rtcp_id_error(id@) {
                None => r matches Ok(v) && v.spec_str() == id@,
                Some(m) => r matches Err(e) && is_local_error(e, m),
            },
    {
        let prefix_ok = starts_with(id, "rc-");
        match check_uuid_id(id, prefix_ok, "rtcp_id's prefix is \"rc-\"") {
            Ok(()) => Ok(RtcpId(id.to_owned())),
            Err(e) => Err(e),
        }
    }

    fn as_str(&self) -> (r: &str)
        ensures
            rtcp_id_error(r@) is None,
    {
        proof {
            use_type_invariant(self);
        }
        self.0.as_str()
    }

    fn id(&self) -> (r: String) {
        self.0.clone()
    }

    fn key(&self) -> (r: &'static str) {
        "rtcp_id"
    }
}

impl Clone for RtcpId {
    fn clone(&self) -> (r: Self)
        ensures
            r == *self,
    {
        proof {
            use_type_invariant(self);
        }
        RtcpId(self.0.clone())
    }
}

/// Why a text is not a `MediaConnectionId`, if it is not one.
pub open spec fn media_connection_id_error(s: Seq<char>) -> Option<Seq<char>> {
    uuid_id_error(s, has_prefix(s, "mc-"@), "media_connection_id's prefix is \"rc-\""@)
}

/// A `MediaConnectionId` is accepted exactly when it starts with `"mc-"`, is 39 bytes long and
/// is all ASCII.
pub proof fn lemma_media_connection_id_accepted_exactly_when(s: Seq<char>)
    ensures
        media_connection_id_error(s) is None <==> (has_prefix(s, "mc-"@) && byte_len(s) == 39
            && is_ascii_chars(s)),
{
    lemma_uuid_id_accepted_exactly_when(
        s,
        has_prefix(s, "mc-"@),
        "media_connection_id's prefix is \"rc-\""@,
    );
}

/// Identifier of a MediaConnection: `"mc-"` and a UUID.
#[derive(Debug, PartialEq, Eq, PartialOrd, Ord, Hash)]
pub struct MediaConnectionId(String);

impl View for MediaConnectionId {
    type V = Seq<char>;

    closed spec fn view(&self) -> Seq<char> {
        self.0@
    }
}

impl MediaConnectionId {
    #[verifier::type_invariant]
    spec fn is_valid(self) -> bool {
        media_connection_id_error(self.0@) is None
    }

    /// The identifier's text, which is always a valid identifier.
    pub fn as_str(&self) -> (r: &str)
        ensures
            r@ == self@,
            media_connection_id_error(r@) is None,
    {
        proof {
            use_type_invariant(self);
        }
        self.0.as_str()
    }

    /// Creates the identifier from its text, when the text is one.
    pub fn try_create(media_connection_id: &str) -> (r: Result<Self, Error>)
        ensures
            match media_connection_id_error(media_connection_id@) {
                None => r matches Ok(v) && v@ == media_connection_id@,
                Some(m) => r matches Err(e) && is_local_error(e, m),
            },
    {
        let prefix_ok = starts_with(media_connection_id, "mc-");
        match check_uuid_id(
            media_connection_id,
            prefix_ok,
            "media_connection_id's prefix is \"rc-\"",
        ) {
            Ok(()) => Ok(MediaConnectionId(media_connection_id.to_owned())),
            Err(e) => Err(e),
        }
    }

    /// Reads a `MediaConnectionId` from the text of a JSON value; on failure, the message.
    pub fn from_wire(value: &str) -> (r: Result<MediaConnectionId, String>)
        ensures
            match media_connection_id_error(value@) {
                None => r matches Ok(v) && v@ == value@,
                Some(m) => r matches Err(s) && s@ == deserialize_failure("MediaId"@, m),
            },
    {
        match MediaConnectionId::try_create(value) {
            Ok(v) => Ok(v),
            Err(e) => Err(deserialize_failure_message("MediaId", &e)),
        }
    }
}

impl Clone for MediaConnectionId {
    fn clone(&self) -> (r: Self)
        ensures
            r == *self,
    {
        proof {
            use_type_invariant(self);
        }
        MediaConnectionId(self.0.clone())
    }
}

/// Query of POST /media: whether the socket is for video (else audio).
#[derive(Debug, Clone, PartialEq)]
pub struct CreateMediaOptions {
    pub is_video: bool,
}

/// Parameters for sending one kind of media.
#[derive(Debug, Clone, PartialEq)]
pub struct MediaParams {
    /// Bandwidth between the peers.
    pub band_width: usize,
    /// Codec for the SDP: `"H264"` or `"VP8"` for video, `"OPUS"` or `"G711"` for audio.
    pub codec: String,
    /// The socket whose media is sent.
    pub media_id: MediaId,
    /// The socket whose RTCP is sent.
    pub rtcp_id: Option<RtcpId>,
    /// Payload type for the SDP.
    pub payload_type: Option<u16>,
    pub sampling_rate: Option<usize>,
}

/// Parameters of a MediaConnection.
#[allow(non_snake_case)]
#[derive(Debug, Clone, PartialEq)]
pub struct Constraints {
    /// Whether video is sent.
    pub video: bool,
    /// Whether video is received.
    pub videoReceiveEnabled: Option<bool>,
    /// Whether audio is sent.
    pub audio: bool,
    /// Whether audio is received.
    pub audioReceiveEnabled: Option<bool>,
    pub video_params: Option<MediaParams>,
    pub audio_params: Option<MediaParams>,
    /// Metadata sent to the neighbour.
    pub metadata: Option<String>,
}

/// Where received media is redirected.
#[derive(Debug, Clone, PartialEq)]
pub struct RedirectParameters {
    pub video: Option<SocketInfo<PhantomId>>,
    pub video_rtcp: Option<SocketInfo<PhantomId>>,
    pub audio: Option<SocketInfo<PhantomId>>,
    pub audio_rtcp: Option<SocketInfo<PhantomId>>,
}

/// Query of POST /media/connections.
#[derive(Debug, Clone, PartialEq)]
pub struct CallQuery {
    /// The Peer Object that calls.
    pub peer_id: PeerId,
    /// Proves the right to control that Peer Object.
    pub token: Token,
    /// The neighbour to call.
    pub target_id: PeerId,
    /// What is sent; without it the connection only receives.
    pub constraints: Option<Constraints>,
    /// Where received media goes; without it the connection only sends.
    pub redirect_params: Option<RedirectParameters>,
}

/// Wraps a `MediaConnectionId` as `{"media_connection_id": ...}`.
#[derive(Debug, Clone, PartialEq, PartialOrd)]
pub struct MediaConnectionIdWrapper {
    pub media_connection_id: MediaConnectionId,
}

/// Reply of POST /media/connections.
#[derive(Debug, Clone, PartialEq)]
pub struct CallResponse {
    /// Always `"PEERS_CALL"`.
    pub command_type: String,
    pub params: MediaConnectionIdWrapper,
}

/// Query of POST /media/connections/{media_connection_id}/answer.
#[derive(Debug, Clone, PartialEq)]
pub struct AnswerQuery {
    pub constraints: Constraints,
    pub redirect_params: Option<RedirectParameters>,
}

/// The media sockets that an answered MediaConnection uses.
#[derive(Debug, Clone, PartialEq)]
pub struct AnswerResponseParams {
    pub video_id: Option<MediaId>,
    pub audio_id: Option<MediaId>,
}

/// Reply of POST /media/connections/{media_connection_id}/answer.
#[derive(Debug, Clone, PartialEq)]
pub struct AnswerResponse {
    /// Always `"MEDIA_CONNECTION_ANSWER"`.
    pub command_type: String,
    pub params: AnswerResponseParams,
}

/// A media socket and its synchronisation source.
#[derive(Debug, Clone, PartialEq)]
pub struct SsrcPair {
    pub media_id: MediaId,
    pub ssrc: usize,
}

/// Reply of GET /media/connections/{media_connection_id}/status.
#[derive(Debug, Clone, PartialEq)]
pub struct MediaConnectionStatus {
    pub metadata: String,
    pub open: bool,
    pub remote_id: PeerId,
    pub ssrc: Option<Vec<SsrcPair>>,
}

/// Events as GET /media/connections/{media_connection_id}/events sends them.
#[derive(Debug, Clone, PartialEq)]
pub enum EventEnum {
    READY,
    STREAM,
    CLOSE,
    ERROR { error_message: String },
    TIMEOUT,
}

/// Events of a MediaConnection, as the bindings hand them to their users.
#[derive(Debug, PartialEq, PartialOrd)]
pub enum MediaConnectionEventEnum {
    READY(MediaConnectionId),
    STREAM(MediaConnectionId),
    CLOSE(MediaConnectionId),
    ERROR((MediaConnectionId, String)),
    TIMEOUT,
}

/// The event of connection `id` that a reply of the event endpoint stands for.
pub open spec fn spec_event_for(id: MediaConnectionId, reply: EventEnum) -> (
    MediaConnectionEventEnum
) {
    match reply {
        EventEnum::READY => MediaConnectionEventEnum::READY(id),
        EventEnum::STREAM => MediaConnectionEventEnum::STREAM(id),
        EventEnum::CLOSE => MediaConnectionEventEnum::CLOSE(id),
        EventEnum::ERROR { error_message } => MediaConnectionEventEnum::ERROR((id, error_message)),
        EventEnum::TIMEOUT => MediaConnectionEventEnum::TIMEOUT,
    }
}

/// The event of connection `media_connection_id` that a reply of the event endpoint stands for.
pub fn event_from_reply(media_connection_id: &MediaConnectionId, reply: EventEnum) -> (r:
    MediaConnectionEventEnum)
    ensures
        r == spec_event_for(*media_connection_id, reply),
{
    match reply {
        EventEnum::READY => MediaConnectionEventEnum::READY(media_connection_id.clone()),
        EventEnum::STREAM => MediaConnectionEventEnum::STREAM(media_connection_id.clone()),
        EventEnum::CLOSE => MediaConnectionEventEnum::CLOSE(media_connection_id.clone()),
        EventEnum::ERROR { error_message } => MediaConnectionEventEnum::ERROR(
            (media_connection_id.clone(), error_message),
        ),
        EventEnum::TIMEOUT => MediaConnectionEventEnum::TIMEOUT,
    }
}

/// What the event endpoint's call comes to when the call failed with `e`: a timed-out poll
/// is a `TIMEOUT` event, anything else stays an error.
pub fn reply_from_failure(e: Error) -> (r: Result<EventEnum, Error>)
    ensures
        is_local_error(e, crate::api::timeout_message()) ==> r == Ok::<EventEnum, Error>(
            EventEnum::TIMEOUT,
        ),
        !is_local_error(e, crate::api::timeout_message()) ==> (r matches Err(f) && f == e),
{
    if crate::api::is_timeout(&e) {
        Ok(EventEnum::TIMEOUT)
    } else {
        Err(e)
    }
}

/// Whether a listener stops after this reply: after `CLOSE` and after `ERROR`.
pub open spec fn spec_finishes(reply: EventEnum) -> bool {
    reply is CLOSE || reply is ERROR
}

/// The media listener stops after a reply exactly when the reply is `CLOSE` or `ERROR`:
/// `READY`, `STREAM` and `TIMEOUT` never end listening.
pub proof fn lemma_media_listener_finishes_on_close_or_error(reply: EventEnum)
    ensures
        spec_finishes(reply) <==> (reply is CLOSE || reply is ERROR),
        reply is READY ==> !spec_finishes(reply),
        reply is STREAM ==> !spec_finishes(reply),
        reply is TIMEOUT ==> !spec_finishes(reply),
{
}

/// What a listener of connection `media_connection_id` does with one reply: it passes on
/// every event but `TIMEOUT`, and stops after `CLOSE` or `ERROR`.
pub fn listen_step(media_connection_id: &MediaConnectionId, reply: EventEnum) -> (r: ListenStep<
    MediaConnectionEventEnum,
>)
    ensures
        r.finished == spec_finishes(reply),
        reply is TIMEOUT ==> r.notify is None,
        !(reply is TIMEOUT) ==> r.notify == Some(spec_event_for(*media_connection_id, reply)),
        r.notify == spec_forwarded(*media_connection_id, reply),
{
    let finished = match reply {
        EventEnum::CLOSE => true,
        EventEnum::ERROR { .. } => true,
        _ => false,
    };
    let notify = match reply {
        EventEnum::TIMEOUT => None,
        _ => Some(event_from_reply(media_connection_id, reply)),
    };
    ListenStep { notify, finished }
}

/// The error a listener ends with when its observer is gone.
pub fn notify_failure() -> (e: Error)
    ensures
        is_local_error(e, "fail to notify an event"@),
{
    Error::create_local_error("fail to notify an event")
}

/// Address of POST /media.
pub fn create_media_url(base_url: &str) -> (r: String)
    ensures
        r@ == base_url@ + "/media"@,
{
    concat2(base_url, "/media")
}

/// Address of DELETE /media/{media_id}.
pub fn delete_media_url(base_url: &str, media_id: &MediaId) -> (r: String)
    ensures
        r@ == base_url@ + "/media/"@ + media_id.spec_str(),
{
    concat3(base_url, "/media/", media_id.as_str())
}

/// Address of POST /media/rtcp.
pub fn create_rtcp_url(base_url: &str) -> (r: String)
    ensures
        r@ == base_url@ + "/media/rtcp"@,
{
    concat2(base_url, "/media/rtcp")
}

/// Address of DELETE /media/rtcp/{rtcp_id}.
pub fn delete_rtcp_url(base_url: &str, rtcp_id: &RtcpId) -> (r: String)
    ensures
        r@ == base_url@ + "/media/rtcp/"@ + rtcp_id.spec_str(),
{
    concat3(base_url, "/media/rtcp/", rtcp_id.as_str())
}

/// Address of POST /media/connections.
pub fn create_call_url(base_url: &str) -> (r: String)
    ensures
        r@ == base_url@ + "/media/connections"@,
{
    concat2(base_url, "/media/connections")
}

/// Address of DELETE /media/connections/{media_connection_id}.
pub fn delete_call_url(base_url: &str, media_connection_id: &MediaConnectionId) -> (r: String)
    ensures
        r@ == base_url@ + "/media/connections/"@ + media_connection_id@,
{
    concat3(base_url, "/media/connections/", media_connection_id.as_str())
}

/// Address of POST /media/connections/{media_connection_id}/answer.
pub fn answer_url(base_url: &str, media_connection_id: &MediaConnectionId) -> (r: String)
    ensures
        r@ == base_url@ + "/media/connections/"@ + media_connection_id@ + "/answer"@,
{
    concat4(base_url, "/media/connections/", media_connection_id.as_str(), "/answer")
}

/// Address of POST /media/connections/{media_connection_id}/pli.
pub fn pli_url(base_url: &str, media_connection_id: &MediaConnectionId) -> (r: String)
    ensures
        r@ == base_url@ + "/media/connections/"@ + media_connection_id@ + "/pli"@,
{
    concat4(base_url, "/media/connections/", media_connection_id.as_str(), "/pli")
}

/// Address of GET /media/connections/{media_connection_id}/events.
pub fn event_url(base_url: &str, media_connection_id: &MediaConnectionId) -> (r: String)
    ensures
        r@ == base_url@ + "/media/connections/"@ + media_connection_id@ + "/events"@,
{
    concat4(base_url, "/media/connections/", media_connection_id.as_str(), "/events")
}

/// Address of GET /media/connections/{media_connection_id}/status.
pub fn status_url(base_url: &str, media_connection_id: &MediaConnectionId) -> (r: String)
    ensures
        r@ == base_url@ + "/media/connections/"@ + media_connection_id@ + "/status"@,
{
    concat4(base_url, "/media/connections/", media_connection_id.as_str(), "/status")
}

/// The event that a reply of connection `id`'s event endpoint passes on; none for `TIMEOUT`.
pub open spec fn spec_forwarded(id: MediaConnectionId, reply: EventEnum) -> Option<
    MediaConnectionEventEnum,
> {
    if reply is TIMEOUT {
        None
    } else {
        Some(spec_event_for(id, reply))
    }
}

/// The media listener of connection `id` passes on every reply but `TIMEOUT` as the event of
/// the same kind, naming `id` (and, for `ERROR`, carrying the reply's message); `TIMEOUT`
/// passes on nothing.
pub proof fn lemma_media_listener_passes_on_each_event(id: MediaConnectionId, reply: EventEnum)
    ensures
        spec_forwarded(id, reply) is None <==> reply is TIMEOUT,
        reply is READY ==> spec_forwarded(id, reply) == Some(MediaConnectionEventEnum::READY(id)),
        reply is STREAM ==> spec_forwarded(id, reply) == Some(
            MediaConnectionEventEnum::STREAM(id),
        ),
        reply is CLOSE ==> spec_forwarded(id, reply) == Some(MediaConnectionEventEnum::CLOSE(id)),
        reply matches EventEnum::ERROR { error_message } ==> spec_forwarded(id, reply) == Some(
            MediaConnectionEventEnum::ERROR((id, error_message)),
        ),
{
}

} // verus!
