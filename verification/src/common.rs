//! Pieces shared by the peer, data and media bindings: how identifiers are validated and
//! what the sockets that the gateway opens look like on the wire.
use vstd::prelude::*;
use crate::error::{Error, is_local_error};
use crate::text::{byte_len, byte_len_is, ends_with, has_suffix, same_text};
use vstd::utf8::is_ascii_chars;

verus! {

/// Message when an identifier does not have the length of a prefixed UUID.
pub open spec fn length_message() -> Seq<char> {
    "token str's length should be 39"@
}

/// Message when an identifier holds a character outside ASCII.
pub open spec fn ascii_message() -> Seq<char> {
    "token str should be ascii"@
}

/// The gateway's identifiers are a three-character prefix and a UUID: 39 bytes of ASCII.
/// Checked in this order: the prefix, the length in bytes, then that every character is
/// ASCII. `None` when all hold, else the message of the first that fails.
pub open spec fn uuid_id_error(s: Seq<char>, prefix_ok: bool, prefix_message: Seq<char>) -> Option<
    Seq<char>,
> {
    if !prefix_ok {
        Some(prefix_message)
    } else if byte_len(s) != 39 {
        Some(length_message())
    } else if !is_ascii_chars(s) {
        Some(ascii_message())
    } else {
        None
    }
}

/// An identifier is accepted exactly when its prefix is right, it is 39 bytes long and every
/// character is ASCII, whatever those characters are; otherwise the message names the first
/// of these three that fails.
pub proof fn lemma_uuid_id_accepted_exactly_when(
    s: Seq<char>,
    prefix_ok: bool,
    prefix_message: Seq<char>,
)
    ensures
        uuid_id_error(s, prefix_ok, prefix_message) is None <==> (prefix_ok && byte_len(s) == 39
            && is_ascii_chars(s)),
        !prefix_ok ==> uuid_id_error(s, prefix_ok, prefix_message) == Some(prefix_message),
        prefix_ok && byte_len(s) != 39 ==> uuid_id_error(s, prefix_ok, prefix_message) == Some(
            "token str's length should be 39"@,
        ),
        prefix_ok && byte_len(s) == 39 && !is_ascii_chars(s) ==> uuid_id_error(
            s,
            prefix_ok,
            prefix_message,
        ) == Some("token str should be ascii"@),
{
}

/// The outcome that `uuid_id_error` describes, as a `Result`.
pub open spec fn matches_id_check(r: Result<(), Error>, expected: Option<Seq<char>>) -> bool {
    match expected {
        None => r is Ok,
        Some(m) => r matches Err(e) && is_local_error(e, m),
    }
}

/// Checks an identifier: its prefix (already decided by the caller), its length, its characters.
pub fn check_uuid_id(s: &str, prefix_ok: bool, prefix_message: &str) -> (r: Result<(), Error>)
    ensures
        matches_id_check(r, uuid_id_error(s@, prefix_ok, prefix_message@)),
{
    if !prefix_ok {
        return Err(Error::create_local_error(prefix_message));
    }
    if !byte_len_is(s, 39) {
        return Err(Error::create_local_error("token str's length should be 39"));
    }
    if !s.is_ascii() {
        return Err(Error::create_local_error("token str should be ascii"));
    }
    Ok(())
}

/// The message of a failed deserialization of an identifier named `kind_name`, whose check
/// failed with `cause`.
pub open spec fn deserialize_failure(kind_name: Seq<char>, cause: Seq<char>) -> Seq<char> {
    "fail to deserialize "@ + kind_name + ": "@ + cause
}

/// Builds the message of a failed deserialization of an identifier named `kind_name`.
pub fn deserialize_failure_message(kind_name: &str, e: &Error) -> (r: String)
    ensures
        e matches Error::LocalError(m) ==> r@ == deserialize_failure(kind_name@, m@),
        !(e is LocalError) ==> r@ == "fail to deserialize "@ + kind_name@,
{
    let mut r = "fail to deserialize ".to_owned();
    r.append(kind_name);
    match e {
        Error::LocalError(m) => {
            r.append(": ");
            r.append(m.as_str());
        },
        _ => {},
    }
    r
}


/// An identifier that names one of the gateway's objects and is sent on the wire under
/// a field of its own, such as `"data_id"`.
pub trait SerializableId: Sized {
    /// The identifier's text.
    spec fn spec_str(&self) -> Seq<char>;

    /// The name of the JSON field that carries the identifier; empty when there is none.
    spec fn spec_key() -> Seq<char>;

    /// The texts that are identifiers of this kind.
    spec fn spec_accepts(s: Seq<char>) -> bool;

    /// Field names are empty, and then no text is an identifier, or they end in `_id`.
    proof fn lemma_key_shape()
        ensures
            has_suffix(Self::spec_key(), "_id"@) || (Self::spec_key().len() == 0 && forall|
                s: Seq<char>,
            | !#[trigger] Self::spec_accepts(s)),
    ;

    /// Creates the identifier from its text, when the text is one.
    fn try_create(id: &str) -> (r: Result<Self, Error>)
        ensures
            (r is Ok) == Self::spec_accepts(id@),
            r matches Ok(v) ==> v.spec_str() == id@,
    ;

    /// The identifier's text.
    fn as_str(&self) -> (r: &str)
        ensures
            r@ == self.spec_str(),
    ;

    /// The identifier's text, owned.
    fn id(&self) -> (r: String)
        ensures
            r@ == self.spec_str(),
    ;

    /// The name of the JSON field that carries the identifier.
    fn key(&self) -> (r: &'static str)
        ensures
            r@ == Self::spec_key(),
    ;
}

/// Stands where a socket has no identifier: there is no text it accepts, and no field.
#[derive(Debug, Clone, PartialEq)]
pub struct PhantomId(String);

impl SerializableId for PhantomId {
    open spec fn spec_str(&self) -> Seq<char> {
        Seq::empty()
    }

    open spec fn spec_key() -> Seq<char> {
        Seq::empty()
    }

    open spec fn spec_accepts(s: Seq<char>) -> bool {
        false
    }

    proof fn lemma_key_shape() {
    }

    fn try_create(_id: &str) -> (r: Result<Self, Error>)
        ensures
            r matches Err(e) && is_local_error(e, "PhantomId holds no id"@),
    {
        Err(Error::create_local_error("PhantomId holds no id"))
    }

    fn as_str(&self) -> (r: &str) {
        proof {
            reveal_strlit("");
        }
        ""
    }

    fn id(&self) -> (r: String) {
        String::new()
    }

    fn key(&self) -> (r: &'static str) {
        proof {
            reveal_strlit("");
        }
        ""
    }
}

/// An IP address: version 4 as its 32 bits, version 6 as its 128 bits, most significant first.
#[derive(Clone, Copy, Debug, PartialEq, Eq, Structural)]
pub enum IpAddress {
    V4(u32),
    V6(u128),
}

/// An IP address and a port.
#[derive(Clone, Copy, Debug, PartialEq, Eq, Structural)]
pub struct SocketAddress {
    pub ip: IpAddress,
    pub port: u16,
}

/// What a `SocketInfo` holds: the identifier's text, if any, and the address.
pub struct SocketInfoView {
    pub id: Option<Seq<char>>,
    pub socket: SocketAddress,
}

/// A socket that the gateway opened or is asked to use, with the identifier it goes by.
#[derive(Debug, PartialEq)]
pub struct SocketInfo<T: SerializableId> {
    id: Option<T>,
    socket: SocketAddress,
}

/// The identifier a socket keeps when created from `id`: the text if it is an identifier.
pub open spec fn kept_id<T: SerializableId>(id: Option<Seq<char>>) -> Option<Seq<char>> {
    match id {
        Some(s) => if T::spec_accepts(s) {
            Some(s)
        } else {
            None
        },
        None => None,
    }
}

/// The field name under which the address is written: `"ip_v4"` or `"ip_v6"`.
pub open spec fn spec_ip_field_name(ip: IpAddress) -> Seq<char> {
    match ip {
        IpAddress::V4(_) => "ip_v4"@,
        IpAddress::V6(_) => "ip_v6"@,
    }
}

/// The field that carries the identifier when a socket is written: its name and its value.
pub open spec fn spec_id_field<T: SerializableId>(v: SocketInfoView) -> Option<
    (Seq<char>, Seq<char>),
> {
    match v.id {
        Some(s) => if T::spec_key().len() > 0 {
            Some((T::spec_key(), s))
        } else {
            None
        },
        None => None,
    }
}

/// A socket's view is one that a `SocketInfo<T>` can have.
pub open spec fn socket_view_wf<T: SerializableId>(v: SocketInfoView) -> bool {
    v.id matches Some(s) ==> T::spec_accepts(s)
}

impl<T: SerializableId> View for SocketInfo<T> {
    type V = SocketInfoView;

    closed spec fn view(&self) -> SocketInfoView {
        SocketInfoView {
            id: match self.id {
                Some(v) => Some(v.spec_str()),
                None => None,
            },
            socket: self.socket,
        }
    }
}

impl<T: SerializableId> SocketInfo<T> {
    #[verifier::type_invariant]
    spec fn id_is_accepted(self) -> bool {
        self.id matches Some(v) ==> T::spec_accepts(v.spec_str())
    }

    /// Creates the socket. An `id` that is not an identifier of kind `T` is dropped.
    pub fn new(id: Option<String>, socket: SocketAddress) -> (r: Self)
        ensures
            r@ == (SocketInfoView {
                id: kept_id::<T>(match id {
                    Some(s) => Some(s@),
                    None => None,
                }),
                socket,
            }),
    {
        let id = match id {
            Some(s) => match T::try_create(s.as_str()) {
                Ok(v) => Some(v),
                Err(_) => None,
            },
            None => None,
        };
        SocketInfo { id, socket }
    }

    /// Every socket's identifier is one of kind `T`: what `lemma_socket_fields_roundtrip`
    /// asks of the socket it speaks of. Does nothing when run.
    pub fn lemma_wf(&self)
        ensures
            socket_view_wf::<T>(self@),
    {
        proof {
            use_type_invariant(self);
        }
    }

    /// A copy of the identifier, if the socket has one.
    pub fn get_id(&self) -> (r: Option<T>)
        ensures
            r is Some == self@.id is Some,
            r matches Some(v) ==> Some(v.spec_str()) == self@.id,
    {
        proof {
            use_type_invariant(self);
        }
        match &self.id {
            Some(v) => match T::try_create(v.as_str()) {
                Ok(w) => Some(w),
                Err(_) => {
                    proof {
                        assert(false);
                    }
                    None
                },
            },
            None => None,
        }
    }

    /// The name of the field that carries the identifier; empty when the socket has none.
    pub fn key(&self) -> (r: &'static str)
        ensures
            r@ == (if self@.id is Some {
                T::spec_key()
            } else {
                Seq::empty()
            }),
    {
        proof {
            reveal_strlit("");
        }
        match &self.id {
            Some(v) => v.key(),
            None => "",
        }
    }

    /// The socket's address.
    pub fn addr(&self) -> (r: SocketAddress)
        ensures
            r == self@.socket,
    {
        self.socket
    }

    /// The socket's IP address.
    pub fn ip(&self) -> (r: IpAddress)
        ensures
            r == self@.socket.ip,
    {
        self.socket.ip
    }

    /// The socket's port.
    pub fn port(&self) -> (r: u16)
        ensures
            r == self@.socket.port,
    {
        self.socket.port
    }

    /// The field that carries the identifier when the socket is written, as name and value;
    /// `None` when the name is empty.
    pub fn id_field(&self) -> (r: Option<(&'static str, String)>)
        ensures
            match r {
                Some((k, s)) => spec_id_field::<T>(self@) == Some((k@, s@)),
                None => spec_id_field::<T>(self@) is None,
            },
    {
        match &self.id {
            Some(v) => {
                let k = v.key();
                if k.unicode_len() == 0 {
                    None
                } else {
                    Some((k, v.id()))
                }
            },
            None => None,
        }
    }

    /// The name of the field that carries the address: `"ip_v4"` or `"ip_v6"`.
    pub fn ip_field_name(&self) -> (r: &'static str)
        ensures
            r@ == spec_ip_field_name(self@.socket.ip),
    {
        match self.socket.ip {
            IpAddress::V4(_) => "ip_v4",
            IpAddress::V6(_) => "ip_v6",
        }
    }
}

impl<T: SerializableId> Clone for SocketInfo<T> {
    fn clone(&self) -> (r: Self)
        ensures
            r@ == self@,
    {
        proof {
            use_type_invariant(self);
        }
        SocketInfo { id: self.get_id(), socket: self.socket }
    }
}


/// The fields of a socket on the wire.
#[derive(Clone, Copy, Debug, PartialEq, Eq, Structural)]
pub enum SocketField {
    Ip,
    Port,
    Id,
}

/// Which field of a socket a JSON key names: `"ip_v4"` and `"ip_v6"` the address, `"port"`
/// the port, any key ending in `_id` the identifier; `None` for any other key.
pub open spec fn spec_identify_field(name: Seq<char>) -> Option<SocketField> {
    if name == "ip_v4"@ || name == "ip_v6"@ {
        Some(SocketField::Ip)
    } else if name == "port"@ {
        Some(SocketField::Port)
    } else if has_suffix(name, "_id"@) {
        Some(SocketField::Id)
    } else {
        None
    }
}

/// Which field of a socket a JSON key names.
pub fn identify_field(name: &str) -> (r: Option<SocketField>)
    ensures
        r == spec_identify_field(name@),
{
    if same_text(name, "ip_v4") || same_text(name, "ip_v6") {
        Some(SocketField::Ip)
    } else if same_text(name, "port") {
        Some(SocketField::Port)
    } else if ends_with(name, "_id") {
        Some(SocketField::Id)
    } else {
        None
    }
}

/// What is wrong with the fields read for a socket.
#[derive(Debug, PartialEq)]
pub enum DecodeIssue {
    /// The named field came twice.
    DuplicateField(String),
    /// The named field is absent.
    MissingField(String),
}

/// What a `SocketInfoBuilder` has gathered so far.
pub struct SocketFieldsView {
    pub ip: Option<Seq<char>>,
    pub id: Option<Seq<char>>,
    pub port: Option<u16>,
}

/// `r` refuses a field named `name` that came twice.
pub open spec fn is_duplicate(r: Result<(), DecodeIssue>, name: Seq<char>) -> bool {
    r matches Err(DecodeIssue::DuplicateField(n)) && n@ == name
}

/// Gathers the fields of a socket as they are read, one key at a time.
pub struct SocketInfoBuilder {
    ip: Option<String>,
    id: Option<String>,
    port: Option<u16>,
}

/// The text of an optional `String`.
pub open spec fn opt_text(s: Option<String>) -> Option<Seq<char>> {
    match s {
        Some(t) => Some(t@),
        None => None,
    }
}

impl View for SocketInfoBuilder {
    type V = SocketFieldsView;

    closed spec fn view(&self) -> SocketFieldsView {
        SocketFieldsView { ip: opt_text(self.ip), id: opt_text(self.id), port: self.port }
    }
}

impl SocketInfoBuilder {
    /// Nothing gathered yet.
    pub fn new() -> (r: Self)
        ensures
            r@ == (SocketFieldsView { ip: None, id: None, port: None }),
    {
        SocketInfoBuilder { ip: None, id: None, port: None }
    }

    /// Takes the address text; refused when one was already taken.
    pub fn accept_ip(&mut self, value: String) -> (r: Result<(), DecodeIssue>)
        ensures
            old(self)@.ip is Some ==> is_duplicate(r, "ip_v4"@) && final(self)@ == old(self)@,
            old(self)@.ip is None ==> r is Ok && final(self)@ == (SocketFieldsView {
                ip: Some(value@),
                ..old(self)@
            }),
    {
        if self.ip.is_some() {
            return Err(DecodeIssue::DuplicateField("ip_v4".to_owned()));
        }
        self.ip = Some(value);
        Ok(())
    }

    /// Takes the port; refused when one was already taken.
    pub fn accept_port(&mut self, value: u16) -> (r: Result<(), DecodeIssue>)
        ensures
            old(self)@.port is Some ==> is_duplicate(r, "port"@) && final(self)@ == old(self)@,
            old(self)@.port is None ==> r is Ok && final(self)@ == (SocketFieldsView {
                port: Some(value),
                ..old(self)@
            }),
    {
        if self.port.is_some() {
            return Err(DecodeIssue::DuplicateField("port".to_owned()));
        }
        self.port = Some(value);
        Ok(())
    }

    /// Takes the identifier's text; refused when one was already taken.
    pub fn accept_id(&mut self, value: String) -> (r: Result<(), DecodeIssue>)
        ensures
            old(self)@.id is Some ==> is_duplicate(r, "id"@) && final(self)@ == old(self)@,
            old(self)@.id is None ==> r is Ok && final(self)@ == (SocketFieldsView {
                id: Some(value@),
                ..old(self)@
            }),
    {
        if self.id.is_some() {
            return Err(DecodeIssue::DuplicateField("id".to_owned()));
        }
        self.id = Some(value);
        Ok(())
    }

    /// The address text; an error when none was read.
    pub fn ip_text(&self) -> (r: Result<String, DecodeIssue>)
        ensures
            match self@.ip {
                Some(t) => r matches Ok(s) && s@ == t,
                None => r matches Err(DecodeIssue::MissingField(n)) && n@ == "ip_v4 or ip_v6"@,
            },
    {
        match &self.ip {
            Some(t) => Ok(t.clone()),
            None => Err(DecodeIssue::MissingField("ip_v4 or ip_v6".to_owned())),
        }
    }

    /// The port; an error when none was read.
    pub fn port(&self) -> (r: Result<u16, DecodeIssue>)
        ensures
            match self@.port {
                Some(p) => r == Ok::<u16, DecodeIssue>(p),
                None => r matches Err(DecodeIssue::MissingField(n)) && n@ == "port"@,
            },
    {
        match self.port {
            Some(p) => Ok(p),
            None => Err(DecodeIssue::MissingField("port".to_owned())),
        }
    }

    /// The identifier's text, if one was read.
    pub fn id(&self) -> (r: Option<String>)
        ensures
            opt_text(r) == self@.id,
    {
        match &self.id {
            Some(t) => Some(t.clone()),
            None => None,
        }
    }
}

/// Writing a socket and reading it back gives the same socket: the field of its address and
/// the field `"port"` are read as such, the field of its identifier is read as an identifier,
/// and the socket created from what was read equals the one written.
pub proof fn lemma_socket_fields_roundtrip<T: SerializableId>(v: SocketInfoView)
    requires
        socket_view_wf::<T>(v),
    ensures
        spec_identify_field(spec_ip_field_name(v.socket.ip)) == Some(SocketField::Ip),
        spec_identify_field("port"@) == Some(SocketField::Port),
        spec_id_field::<T>(v) matches Some((k, s)) ==> spec_identify_field(k) == Some(
            SocketField::Id,
        ),
        (SocketInfoView {
            id: kept_id::<T>(
                match spec_id_field::<T>(v) {
                    Some((k, s)) => Some(s),
                    None => None,
                },
            ),
            socket: v.socket,
        }) == v,
{
    reveal_strlit("ip_v4");
    reveal_strlit("ip_v6");
    reveal_strlit("port");
    reveal_strlit("_id");
    T::lemma_key_shape();
    let k = T::spec_key();
    if has_suffix(k, "_id"@) {
        assert(k.len() >= 3);
        assert(k.subrange(k.len() - 3, k.len() as int)[2] == 'd');
        assert(k[k.len() - 1] == 'd');
        assert(k != "ip_v4"@) by {
            if k == "ip_v4"@ {
                assert(k[k.len() - 1] == '4');
            }
        }
        assert(k != "ip_v6"@) by {
            if k == "ip_v6"@ {
                assert(k[k.len() - 1] == '6');
            }
        }
        assert(k != "port"@) by {
            if k == "port"@ {
                assert(k[k.len() - 1] == 't');
            }
        }
    }
    if v.id is Some {
        let s = v.id->0;
        assert(T::spec_accepts(s));
    }
    assert(!has_suffix("port"@, "_id"@)) by {
        assert("port"@.subrange(1, 4)[2] == 't');
    }
}


/// The text that an optional field of the gateway's JSON may hold in place of a value.
pub open spec fn not_available_text() -> Seq<char> {
    "n/a"@
}

/// How an optional field that holds text where a value belongs is read: `"n/a"` is no value,
/// any other text is an error with the message returned.
pub fn value_from_text<T>(text: &str) -> (r: Result<Option<T>, String>)
    ensures
        text@ == not_available_text() ==> (r matches Ok(v) && v is None),
        text@ != not_available_text() ==> (r matches Err(m) && m@ == "Unexpected string"@),
{
    if crate::text::same_text(text, "n/a") {
        Ok(None)
    } else {
        Err("Unexpected string".to_owned())
    }
}

} // verus!
