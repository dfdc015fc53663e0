//! Bindings for the `/data` endpoints: the sockets that feed data, and DataConnections.
use vstd::prelude::*;
use vstd::utf8::is_ascii_chars;
use crate::common::lemma_uuid_id_accepted_exactly_when;
use crate::text::byte_len;
use crate::api::ListenStep;
use crate::common::{
    SerializableId, PhantomId, SocketInfo, check_uuid_id, uuid_id_error, deserialize_failure,
    deserialize_failure_message,
};
use crate::error::{Error, is_local_error};
use crate::peer::{PeerId, Token};
use crate::text::{has_prefix, starts_with, concat2, concat3, concat4};

verus! {

/// Why a text is not a `DataId`, if it is not one.
pub open spec fn data_id_error(s: Seq<char>) -> Option<Seq<char>> {
    uuid_id_error(s, has_prefix(s, "da-"@), "token str's prefix is \"da-\""@)
}

/// A `DataId` is accepted exactly when it starts with `"da-"`, is 39 bytes long and is all
/// ASCII.
pub proof fn lemma_data_id_accepted_exactly_when(s: Seq<char>)
    ensures
        data_id_error(s) is None <==> (has_prefix(s, "da-"@) && byte_len(s) == 39
            && is_ascii_chars(s)),
{
    lemma_uuid_id_accepted_exactly_when(s, has_prefix(s, "da-"@), "token str's prefix is \"da-\""@);
}

/// Identifier of a socket that feeds data into a DataConnection: `"da-"` and a UUID.
#[derive(Debug, PartialEq, Eq, PartialOrd, Ord, Hash)]
pub struct DataId(String);

impl DataId {
    #[verifier::type_invariant]
    spec fn is_valid(self) -> bool {
        data_id_error(self.0@) is None
    }

    /// Reads a `DataId` from the text of a JSON value; on failure, the message to report.
    pub fn from_wire(value: &str) -> (r: Result<DataId, String>)
        ensures
            match data_id_error(value@) {
                None => r matches Ok(v) && v.spec_str() == value@,
                Some(m) => r matches Err(s) && s@ == deserialize_failure("DataId"@, m),
            },
    {
        match DataId::try_create(value) {
            Ok(v) => Ok(v),
            Err(e) => Err(deserialize_failure_message("DataId", &e)),
        }
    }

    /// Reads a `DataId` from a JSON value handed over as an owned string; a failure is
    /// reported under the name `Token`.
    pub fn from_owned_wire(value: String) -> (r: Result<DataId, String>)
        ensures
            match data_id_error(value@) {
                None => r matches Ok(v) && v.spec_str() == value@,
                Some(m) => r matches Err(s) && s@ == deserialize_failure("Token"@, m),
            },
    {
        match DataId::try_create(value.as_str()) {
            Ok(v) => Ok(v),
            Err(e) => Err(deserialize_failure_message("Token", &e)),
        }
    }
}

impl SerializableId for DataId {
    closed spec fn spec_str(&self) -> Seq<char> {
        self.0@
    }

    open spec fn spec_key() -> Seq<char> {
        "data_id"@
    }

    open spec fn spec_accepts(s: Seq<char>) -> bool {
        data_id_error(s) is None
    }

    proof fn lemma_key_shape() {
        reveal_strlit("data_id");
        reveal_strlit("_id");
        assert("data_id"@.subrange(4, 7) =~= "_id"@);
    }

    fn try_create(id: &str) -> (r: Result<Self, Error>)
        ensures
            match data_id_error(id@) {
                None => r matches Ok(v) && v.spec_str() == id@,
                Some(m) => r matches Err(e) && is_local_error(e, m),
            },
    {
        let prefix_ok = starts_with(id, "da-");
        match check_uuid_id(id, prefix_ok, "token str's prefix is \"da-\"") {
            Ok(()) => Ok(DataId(id.to_owned())),
            Err(e) => Err(e),
        }
    }

    fn as_str(&self) -> (r: &str)
        ensures
            data_id_error(r@) is None,
    {
        proof {
            use_type_invariant(self);
        }
        self.0.as_str()
    }

    fn id(&self) -> (r: String) {
        self.0.clone()
    }

    fn key(&self) -> (r: &'static str) {
        "data_id"
    }
}

impl Clone for DataId {
    fn clone(&self) -> (r: Self)
        ensures
            r == *self,
    {
        proof {
            use_type_invariant(self);
        }
        DataId(self.0.clone())
    }
}

/// Why a text is not a `DataConnectionId`, if it is not one.
pub open spec fn data_connection_id_error(s: Seq<char>) -> Option<Seq<char>> {
    uuid_id_error(s, has_prefix(s, "dc-"@), "data_connection_id's prefix is \"dc-\""@)
}

/// A `DataConnectionId` is accepted exactly when it starts with `"dc-"`, is 39 bytes long and
/// is all ASCII.
pub proof fn lemma_data_connection_id_accepted_exactly_when(s: Seq<char>)
    ensures
        data_connection_id_error(s) is None <==> (has_prefix(s, "dc-"@) && byte_len(s) == 39
            && is_ascii_chars(s)),
{
    lemma_uuid_id_accepted_exactly_when(
        s,
        has_prefix(s, "dc-"@),
        "data_connection_id's prefix is \"dc-\""@,
    );
}

/// Identifier of a DataConnection: `"dc-"` and a UUID.
#[derive(Debug, PartialEq, Eq, PartialOrd, Ord, Hash)]
pub struct DataConnectionId(String);

impl View for DataConnectionId {
    type V = Seq<char>;

    closed spec fn view(&self) -> Seq<char> {
        self.0@
    }
}

impl DataConnectionId {
    #[verifier::type_invariant]
    spec fn is_valid(self) -> bool {
        data_connection_id_error(self.0@) is None
    }

    /// The identifier's text, which is always a valid identifier.
    pub fn as_str(&self) -> (r: &str)
        ensures
            r@ == self@,
            data_connection_id_error(r@) is None,
    {
        proof {
            use_type_invariant(self);
        }
        self.0.as_str()
    }

    /// Creates the identifier from its text, when the text is one.
    pub fn try_create(data_connection_id: &str) -> (r: Result<Self, Error>)
        ensures
            match data_connection_id_error(data_connection_id@) {
                None => r matches Ok(v) && v@ == data_connection_id@,
                Some(m) => r matches Err(e) && is_local_error(e, m),
            },
    {
        let prefix_ok = starts_with(data_connection_id, "dc-");
        match check_uuid_id(
            data_connection_id,
            prefix_ok,
            "data_connection_id's prefix is \"dc-\"",
        ) {
            Ok(()) => Ok(DataConnectionId(data_connection_id.to_owned())),
            Err(e) => Err(e),
        }
    }

    /// Reads a `DataConnectionId` from the text of a JSON value; on failure, the message.
    pub fn from_wire(value: &str) -> (r: Result<DataConnectionId, String>)
        ensures
            match data_connection_id_error(value@) {
                None => r matches Ok(v) && v@ == value@,
                Some(m) => r matches Err(s) && s@ == deserialize_failure("DataId"@, m),
            },
    {
        match DataConnectionId::try_create(value) {
            Ok(v) => Ok(v),
            Err(e) => Err(deserialize_failure_message("DataId", &e)),
        }
    }

    /// Reads a `DataConnectionId` from a JSON value handed over as an owned string; a failure
    /// is reported under the name `Token`.
    pub fn from_owned_wire(value: String) -> (r: Result<DataConnectionId, String>)
        ensures
            match data_connection_id_error(value@) {
                None => r matches Ok(v) && v@ == value@,
                Some(m) => r matches Err(s) && s@ == deserialize_failure("Token"@, m),
            },
    {
        match DataConnectionId::try_create(value.as_str()) {
            Ok(v) => Ok(v),
            Err(e) => Err(deserialize_failure_message("Token", &e)),
        }
    }
}

impl Clone for DataConnectionId {
    fn clone(&self) -> (r: Self)
        ensures
            r == *self,
    {
        proof {
            use_type_invariant(self);
        }
        DataConnectionId(self.0.clone())
    }
}

/// Options of a DataConnection in the browser's terms (`RTCDataChannelInit`).
#[allow(non_snake_case)]
#[derive(Debug, Clone, PartialEq)]
pub struct DcInit {
    pub ordered: Option<bool>,
    pub maxPacketLifeTime: Option<usize>,
    pub maxRetransmits: Option<usize>,
    pub protocol: Option<String>,
    pub negotiated: Option<bool>,
    pub id: Option<usize>,
    pub priority: Option<String>,
}

/// Options of a DataConnection in SkyWay's terms.
#[allow(non_snake_case)]
#[derive(Debug, Clone, PartialEq)]
pub struct ConnectQueryOption {
    pub metadata: Option<String>,
    pub serialization: Option<String>,
    pub dcInit: Option<DcInit>,
}

/// Wraps a `DataId` as the JSON object `{"data_id": ...}`.
#[derive(Debug, Clone, PartialEq)]
pub struct DataIdWrapper {
    pub data_id: DataId,
}

/// Query of POST /data/connections.
#[derive(Debug, Clone, PartialEq)]
pub struct ConnectQuery {
    /// The Peer Object that connects.
    pub peer_id: PeerId,
    /// Proves the right to control that Peer Object.
    pub token: Token,
    pub options: Option<ConnectQueryOption>,
    /// The neighbour to connect to.
    pub target_id: PeerId,
    /// The socket whose data is sent; without it the connection only receives.
    pub params: Option<DataIdWrapper>,
    /// Where received data is redirected; without it the connection only sends.
    pub redirect_params: Option<SocketInfo<PhantomId>>,
}

/// Wraps a `DataConnectionId` as `{"data_connection_id": ...}`.
#[derive(Debug, Clone, PartialEq, PartialOrd)]
pub struct DataConnectionIdWrapper {
    pub data_connection_id: DataConnectionId,
}

/// Reply of POST /data/connections.
#[derive(Debug, Clone, PartialEq)]
pub struct ConnectionResponse {
    /// Always `"PEERS_CONNECT"`.
    pub command_type: String,
    pub params: DataConnectionIdWrapper,
}

/// Query of PUT /data/connections/{data_connection_id}.
#[derive(Debug, Clone, PartialEq)]
pub struct RedirectDataParams {
    /// The socket whose data is sent.
    pub feed_params: Option<DataIdWrapper>,
    /// Where received data is redirected.
    pub redirect_params: Option<SocketInfo<PhantomId>>,
}

/// Reply of PUT /data/connections/{data_connection_id}.
#[derive(Debug, Clone, PartialEq)]
pub struct RedirectDataResponse {
    /// Always `"DATA_CONNECTION_PUT"`.
    pub command_type: String,
    pub data_id: DataId,
}

/// Reply of GET /data/connections/{data_connection_id}/status.
#[derive(Debug, Clone, PartialEq)]
pub struct DataConnectionStatus {
    pub remote_id: String,
    pub buffersize: usize,
    pub label: String,
    pub metadata: String,
    pub open: bool,
    pub reliable: bool,
    pub serialization: String,
    /// The JSON field `type`; always `"data"`.
    pub connection_type: String,
}

/// Events as GET /data/connections/{data_connection_id}/events sends them.
#[derive(Debug, Clone, PartialEq)]
pub enum EventEnum {
    OPEN,
    CLOSE,
    ERROR { error_message: String },
    TIMEOUT,
}

/// Events of a DataConnection, as the bindings hand them to their users.
#[derive(Debug, PartialEq, PartialOrd)]
pub enum DataConnectionEventEnum {
    OPEN(DataConnectionId),
    CLOSE(DataConnectionId),
    ERROR((DataConnectionId, String)),
    TIMEOUT,
}

/// The event of connection `id` that a reply of the event endpoint stands for.
pub open spec fn spec_event_for(id: DataConnectionId, reply: EventEnum) -> DataConnectionEventEnum {
    match reply {
        EventEnum::OPEN => DataConnectionEventEnum::OPEN(id),
        EventEnum::CLOSE => DataConnectionEventEnum::CLOSE(id),
        EventEnum::ERROR { error_message } => DataConnectionEventEnum::ERROR((id, error_message)),
        EventEnum::TIMEOUT => DataConnectionEventEnum::TIMEOUT,
    }
}

/// The event of connection `data_connection_id` that a reply of the event endpoint stands for.
pub fn event_from_reply(data_connection_id: &DataConnectionId, reply: EventEnum) -> (r:
    DataConnectionEventEnum)
    ensures
        r == spec_event_for(*data_connection_id, reply),
{
    match reply {
        EventEnum::OPEN => DataConnectionEventEnum::OPEN(data_connection_id.clone()),
        EventEnum::CLOSE => DataConnectionEventEnum::CLOSE(data_connection_id.clone()),
        EventEnum::ERROR { error_message } => DataConnectionEventEnum::ERROR(
            (data_connection_id.clone(), error_message),
        ),
        EventEnum::TIMEOUT => DataConnectionEventEnum::TIMEOUT,
    }
}

/// What the event endpoint's call comes to when the call failed with `e`: a timed-out poll
/// is a `TIMEOUT` event, anything else stays an error.
pub fn reply_from_failure(e: Error) -> (r: Result<EventEnum, Error>)
    ensures
        is_local_error(e, crate::api::timeout_message()) ==> r == Ok::<EventEnum, Error>(
            EventEnum::TIMEOUT,
        ),
        !is_local_error(e, crate::api::timeout_message()) ==> (r matches Err(f) && f == e),
{
    if crate::api::is_timeout(&e) {
        Ok(EventEnum::TIMEOUT)
    } else {
        Err(e)
    }
}

/// Whether a listener stops after this reply: after `CLOSE`.
pub open spec fn spec_finishes(reply: EventEnum) -> bool {
    reply is CLOSE
}

/// What a listener of connection `data_connection_id` does with one reply: it passes on every
/// event but `TIMEOUT`, and stops after `CLOSE`.
pub fn listen_step(data_connection_id: &DataConnectionId, reply: EventEnum) -> (r: ListenStep<
    DataConnectionEventEnum,
>)
    ensures
        r.finished == spec_finishes(reply),
        reply is TIMEOUT ==> r.notify is None,
        !(reply is TIMEOUT) ==> r.notify == Some(spec_event_for(*data_connection_id, reply)),
        r.notify == spec_forwarded(*data_connection_id, reply),
{
    let finished = match reply {
        EventEnum::CLOSE => true,
        _ => false,
    };
    let notify = match reply {
        EventEnum::TIMEOUT => None,
        _ => Some(event_from_reply(data_connection_id, reply)),
    };
    ListenStep { notify, finished }
}

/// The error a listener ends with when its observer is gone.
pub fn notify_failure() -> (e: Error)
    ensures
        is_local_error(e, "fail to notify an event"@),
{
    Error::create_local_error("fail to notify an event")
}

/// Address of POST /data.
pub fn create_data_url(base_url: &str) -> (r: String)
    ensures
        r@ == base_url@ + "/data"@,
{
    concat2(base_url, "/data")
}

/// Address of DELETE /data/{data_id}.
pub fn delete_data_url(base_url: &str, data_id: &DataId) -> (r: String)
    ensures
        r@ == base_url@ + "/data/"@ + data_id.spec_str(),
{
    concat3(base_url, "/data/", data_id.as_str())
}

/// Address of POST /data/connections.
pub fn create_data_connection_url(base_url: &str) -> (r: String)
    ensures
        r@ == base_url@ + "/data/connections"@,
{
    concat2(base_url, "/data/connections")
}

/// Address of DELETE and PUT /data/connections/{data_connection_id}.
pub fn data_connection_url(base_url: &str, data_connection_id: &DataConnectionId) -> (r: String)
    ensures
        r@ == base_url@ + "/data/connections/"@ + data_connection_id@,
{
    concat3(base_url, "/data/connections/", data_connection_id.as_str())
}

/// Address of GET /data/connections/{data_connection_id}/status.
pub fn status_url(base_url: &str, data_connection_id: &DataConnectionId) -> (r: String)
    ensures
        r@ == base_url@ + "/data/connections/"@ + data_connection_id@ + "/status"@,
{
    concat4(base_url, "/data/connections/", data_connection_id.as_str(), "/status")
}

/// Address of GET /data/connections/{data_connection_id}/events.
pub fn event_url(base_url: &str, data_connection_id: &DataConnectionId) -> (r: String)
    ensures
        r@ == base_url@ + "/data/connections/"@ + data_connection_id@ + "/events"@,
{
    concat4(base_url, "/data/connections/", data_connection_id.as_str(), "/events")
}

/// The event that a reply of connection `id`'s event endpoint passes on; none for `TIMEOUT`.
pub open spec fn spec_forwarded(id: DataConnectionId, reply: EventEnum) -> Option<
    DataConnectionEventEnum,
> {
    if reply is TIMEOUT {
        None
    } else {
        Some(spec_event_for(id, reply))
    }
}

/// The listener of DataConnection `id` passes on every reply but `TIMEOUT` as the event of
/// the same kind, naming `id` (and, for `ERROR`, carrying the reply's message); `TIMEOUT`
/// passes on nothing. It stops after `CLOSE` and after nothing else.
pub proof fn lemma_data_listener_passes_on_each_event(id: DataConnectionId, reply: EventEnum)
    ensures
        spec_forwarded(id, reply) is None <==> reply is TIMEOUT,
        reply is OPEN ==> spec_forwarded(id, reply) == Some(DataConnectionEventEnum::OPEN(id)),
        reply is CLOSE ==> spec_forwarded(id, reply) == Some(DataConnectionEventEnum::CLOSE(id)),
        reply matches EventEnum::ERROR { error_message } ==> spec_forwarded(id, reply) == Some(
            DataConnectionEventEnum::ERROR((id, error_message)),
        ),
        spec_finishes(reply) <==> reply is CLOSE,
{
}

} // verus!
