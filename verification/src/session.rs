//! The decisions of the interactive programs that drive a Peer Object: reading the commands
//! typed by the user, and building the queries of a call or a connection from the settings
//! and from the sockets that the gateway opened.
use vstd::prelude::*;
use crate::common::{PhantomId, SerializableId, SocketAddress, SocketInfo};
use crate::data::{ConnectQuery, DataId, DataIdWrapper, RedirectDataParams};
use crate::media::{
    AnswerQuery, CallQuery, Constraints, MediaId, MediaParams, RedirectParameters, RtcpId,
};
use crate::peer::{PeerId, PeerInfo};
use crate::text::{has_prefix, same_text, starts_with};

verus! {

/// Number of characters before the first space of `s`; all of them when there is none.
pub open spec fn first_space(s: Seq<char>) -> nat
    decreases s.len(),
{
    if s.len() == 0 {
        0
    } else if s[0] == ' ' {
        0
    } else {
        1 + first_space(s.drop_first())
    }
}

/// The second of the space-separated pieces of `s`, if there are two or more.
pub open spec fn second_piece(s: Seq<char>) -> Option<Seq<char>> {
    let i = first_space(s);
    if i >= s.len() {
        None
    } else {
        let rest = s.subrange(i as int + 1, s.len() as int);
        Some(rest.subrange(0, first_space(rest) as int))
    }
}

/// A command typed by the user.
#[derive(Debug, PartialEq)]
pub enum Command {
    /// Delete the Peer Object and stop.
    Exit,
    /// Show the Peer Object's status.
    Status,
    /// Connect to, or call, the neighbour with this identifier.
    Target(PeerId),
    /// The command to connect or call came without a neighbour.
    TargetMissing,
    /// Anything else.
    Unknown,
}

/// How a line is read, where `verb` is the command that names a neighbour (`"connect"` or
/// `"call"`): `exit` and `status` exactly, then any line that starts with `verb`, whose
/// neighbour is the second space-separated piece.
pub open spec fn spec_command_matches(line: Seq<char>, verb: Seq<char>, c: Command) -> bool {
    if line == "exit"@ {
        c is Exit
    } else if line == "status"@ {
        c is Status
    } else if has_prefix(line, verb) {
        match second_piece(line) {
            None => c is TargetMissing,
            Some(w) => c matches Command::Target(p) && p@ == w,
        }
    } else {
        c is Unknown
    }
}

/// The lines `exit` and `status` are read as `Exit` and `Status` whatever the verb is.
pub proof fn lemma_exit_and_status_whatever_the_verb(verb: Seq<char>, c: Command)
    ensures
        spec_command_matches("exit"@, verb, c) <==> c is Exit,
        spec_command_matches("status"@, verb, c) <==> c is Status,
{
    reveal_strlit("exit");
    reveal_strlit("status");
    assert("status"@ != "exit"@) by {
        assert("status"@.len() != "exit"@.len());
    }
}

/// `s` holds no space.
pub open spec fn has_no_space(s: Seq<char>) -> bool {
    forall|i: int| 0 <= i < s.len() ==> s[i] != ' '
}

proof fn lemma_first_space_after_word(a: Seq<char>, b: Seq<char>)
    requires
        has_no_space(a),
    ensures
        first_space(a + b) == a.len() + first_space(b),
    decreases a.len(),
{
    if a.len() > 0 {
        assert((a + b).drop_first() =~= a.drop_first() + b);
        lemma_first_space_after_word(a.drop_first(), b);
    } else {
        assert(a + b =~= b);
    }
}

proof fn lemma_spaced_line_is_no_keyword(line: Seq<char>, k: int)
    requires
        0 <= k < line.len(),
        line[k] == ' ',
    ensures
        line != "exit"@,
        line != "status"@,
{
    reveal_strlit("exit");
    reveal_strlit("status");
}

/// A line made of the verb, a space and a neighbour's identifier, possibly followed by more
/// space-separated words, names that neighbour, whatever the words are (none of them holding
/// a space).
pub proof fn lemma_verb_and_target(verb: Seq<char>, target: Seq<char>, tail: Seq<char>, c: Command)
    requires
        has_no_space(verb),
        has_no_space(target),
        tail.len() == 0 || tail[0] == ' ',
    ensures
        spec_command_matches(verb + " "@ + target + tail, verb, c) <==> (c matches Command::Target(
            p,
        ) && p@ == target),
{
    reveal_strlit(" ");
    let line = verb + " "@ + target + tail;
    let rest = target + tail;
    assert(line =~= verb + (" "@ + rest));
    lemma_first_space_after_word(verb, " "@ + rest);
    assert(line[verb.len() as int] == ' ');
    lemma_spaced_line_is_no_keyword(line, verb.len() as int);
    assert(line.subrange(0, verb.len() as int) =~= verb);
    assert(line.subrange(verb.len() as int + 1, line.len() as int) =~= rest);
    lemma_first_space_after_word(target, tail);
    assert(rest.subrange(0, target.len() as int) =~= target);
}

/// The verb alone, with nothing after it, is a command that lacks its neighbour (unless the
/// verb is itself `exit` or `status`).
pub proof fn lemma_verb_alone(verb: Seq<char>, c: Command)
    requires
        has_no_space(verb),
        verb != "exit"@,
        verb != "status"@,
    ensures
        spec_command_matches(verb, verb, c) <==> c is TargetMissing,
{
    lemma_first_space_after_word(verb, Seq::empty());
    assert(verb + Seq::<char>::empty() =~= verb);
    assert(verb.subrange(0, verb.len() as int) =~= verb);
}

/// A line that is neither `exit` nor `status` and does not start with the verb is not a
/// command.
pub proof fn lemma_other_lines_unknown(line: Seq<char>, verb: Seq<char>, c: Command)
    requires
        line != "exit"@,
        line != "status"@,
        !(verb.len() <= line.len() && line.subrange(0, verb.len() as int) == verb),
    ensures
        spec_command_matches(line, verb, c) <==> c is Unknown,
{
}

proof fn lemma_first_space_step(s: Seq<char>, k: int)
    requires
        0 <= k < s.len(),
    ensures
        first_space(s.subrange(k, s.len() as int)) == if s[k] == ' ' {
            0
        } else {
            1 + first_space(s.subrange(k + 1, s.len() as int))
        },
{
    assert(s.subrange(k, s.len() as int).drop_first() =~= s.subrange(k + 1, s.len() as int));
}

proof fn lemma_first_space_bound(s: Seq<char>)
    ensures
        first_space(s) <= s.len(),
        first_space(s) < s.len() ==> s[first_space(s) as int] == ' ',
    decreases s.len(),
{
    if s.len() > 0 && s[0] != ' ' {
        lemma_first_space_bound(s.drop_first());
    }
}

/// Index of the first space of `s` at or after `from`; `s`'s length when there is none.
fn find_space(s: &str, from: usize) -> (i: usize)
    requires
        from <= s@.len(),
    ensures
        i == from + first_space(s@.subrange(from as int, s@.len() as int)),
        i <= s@.len(),
{
    let n = s.unicode_len();
    let mut i = from;
    proof {
        lemma_first_space_bound(s@.subrange(from as int, s@.len() as int));
    }
    while i < n
        invariant
            n == s@.len(),
            from <= i <= n,
            from + first_space(s@.subrange(from as int, n as int)) == i + first_space(
                s@.subrange(i as int, n as int),
            ),
        decreases n - i,
    {
        proof {
            lemma_first_space_step(s@, i as int);
        }
        if s.get_char(i) == ' ' {
            return i;
        }
        i = i + 1;
    }
    assert(s@.subrange(i as int, n as int).len() == 0);
    i
}

/// Reads a line typed by the user; `verb` is the command that names a neighbour.
pub fn parse_command(line: &str, verb: &str) -> (c: Command)
    ensures
        spec_command_matches(line@, verb@, c),
{
    if same_text(line, "exit") {
        return Command::Exit;
    }
    if same_text(line, "status") {
        return Command::Status;
    }
    if !starts_with(line, verb) {
        return Command::Unknown;
    }
    let n = line.unicode_len();
    let i = find_space(line, 0);
    assert(line@.subrange(0, n as int) =~= line@);
    if i >= n {
        return Command::TargetMissing;
    }
    let j = find_space(line, i + 1);
    let piece = line.substring_char(i + 1, j);
    proof {
        let rest = line@.subrange(i + 1, line@.len() as int);
        assert(rest.subrange(0, first_space(rest) as int) =~= line@.subrange(i + 1, j as int));
    }
    Command::Target(PeerId::new(piece))
}

/// Where one kind of received media goes: its media socket and its RTCP socket.
#[derive(Debug, Clone, Copy, PartialEq)]
pub struct RedirectSocketConfig {
    pub media: SocketAddress,
    pub rtcp: SocketAddress,
}

/// How one kind of media is sent.
#[derive(Debug, Clone, PartialEq)]
pub struct MediaParamConfig {
    pub band_width: usize,
    pub codec: String,
    pub payload_type: u16,
    pub sampling_rate: usize,
}

/// The settings of one call or answer.
#[derive(Debug, Clone, PartialEq)]
pub struct MediaConfig {
    pub video: bool,
    pub audio: bool,
    pub video_redirect: Option<RedirectSocketConfig>,
    pub video_params: Option<MediaParamConfig>,
    pub audio_redirect: Option<RedirectSocketConfig>,
    pub audio_params: Option<MediaParamConfig>,
}

/// Whether sockets to send video are opened: only when video is sent and its parameters set.
pub fn opens_video_sockets(config: &MediaConfig) -> (r: bool)
    ensures
        r == (config.video && config.video_params is Some),
{
    config.video && config.video_params.is_some()
}

/// Whether sockets to send audio are opened: only when audio is sent and its parameters set.
pub fn opens_audio_sockets(config: &MediaConfig) -> (r: bool)
    ensures
        r == (config.audio && config.audio_params is Some),
{
    config.audio && config.audio_params.is_some()
}

/// `p` sends one kind of media as `c` says, through the media socket `media` and the RTCP
/// socket `rtcp`.
pub open spec fn sends_through(
    c: MediaParamConfig,
    media: SocketInfo<MediaId>,
    rtcp: SocketInfo<RtcpId>,
    p: MediaParams,
) -> bool {
    &&& p.band_width == c.band_width
    &&& p.codec@ == c.codec@
    &&& Some(p.media_id.spec_str()) == media@.id
    &&& p.rtcp_id matches Some(id) && Some(id.spec_str()) == rtcp@.id
    &&& p.payload_type == Some(c.payload_type)
    &&& p.sampling_rate == Some(c.sampling_rate)
}

/// The parameters for sending one kind of media through the sockets that the gateway opened.
pub fn media_params_for(
    config: &MediaParamConfig,
    media_socket: &SocketInfo<MediaId>,
    rtcp_socket: &SocketInfo<RtcpId>,
) -> (r: MediaParams)
    requires
        media_socket@.id is Some,
        rtcp_socket@.id is Some,
    ensures
        sends_through(*config, *media_socket, *rtcp_socket, r),
{
    let media_id = match media_socket.get_id() {
        Some(id) => id,
        None => vstd::pervasive::unreached(),
    };
    let rtcp_id = rtcp_socket.get_id();
    MediaParams {
        band_width: config.band_width,
        codec: config.codec.clone(),
        media_id,
        rtcp_id,
        payload_type: Some(config.payload_type),
        sampling_rate: Some(config.sampling_rate),
    }
}

/// The constraints of a call or answer: what is sent as the settings say, what is received
/// as far as the settings say where to redirect it.
pub fn constraints_for(
    config: &MediaConfig,
    video_params: Option<MediaParams>,
    audio_params: Option<MediaParams>,
) -> (r: Constraints)
    ensures
        r.video == config.video,
        r.videoReceiveEnabled == Some(config.video_redirect is Some),
        r.audio == config.audio,
        r.audioReceiveEnabled == Some(config.audio_redirect is Some),
        r.video_params == video_params,
        r.audio_params == audio_params,
        r.metadata is None,
{
    Constraints {
        video: config.video,
        videoReceiveEnabled: Some(config.video_redirect.is_some()),
        audio: config.audio,
        audioReceiveEnabled: Some(config.audio_redirect.is_some()),
        video_params,
        audio_params,
        metadata: None,
    }
}

/// The sockets opened to send one kind of media, a media socket and an RTCP socket, carry
/// the identifiers that the gateway gave them.
pub open spec fn sources_have_ids(
    sources: Option<(SocketInfo<MediaId>, SocketInfo<RtcpId>)>,
) -> bool {
    sources matches Some(pair) ==> pair.0@.id is Some && pair.1@.id is Some
}

/// `p` is how one kind of media is sent: through the sockets opened for it, as the settings
/// `c` say, and not at all where no sockets were opened.
pub open spec fn sent_through_sources(
    c: Option<MediaParamConfig>,
    sources: Option<(SocketInfo<MediaId>, SocketInfo<RtcpId>)>,
    p: Option<MediaParams>,
) -> bool {
    match sources {
        Some(pair) => c matches Some(settings) && p matches Some(q) && sends_through(
            settings,
            pair.0,
            pair.1,
            q,
        ),
        None => p is None,
    }
}

/// The parameters of one kind of media, from the sockets opened to send it.
fn params_from_sources(
    c: &Option<MediaParamConfig>,
    sources: &Option<(SocketInfo<MediaId>, SocketInfo<RtcpId>)>,
) -> (r: Option<MediaParams>)
    requires
        sources is Some ==> c is Some,
        sources_have_ids(*sources),
    ensures
        sent_through_sources(*c, *sources, r),
{
    match sources {
        Some(pair) => match c {
            Some(settings) => Some(media_params_for(settings, &pair.0, &pair.1)),
            None => None,
        },
        None => None,
    }
}

/// The constraints of a call or answer, once the sockets to send media have been opened:
/// sockets for video exactly when `opens_video_sockets` says so, for audio likewise. Each kind
/// of media that has sockets is sent through them as the settings say.
pub fn connect_constraints(
    config: &MediaConfig,
    video_sources: &Option<(SocketInfo<MediaId>, SocketInfo<RtcpId>)>,
    audio_sources: &Option<(SocketInfo<MediaId>, SocketInfo<RtcpId>)>,
) -> (r: Constraints)
    requires
        video_sources is Some == (config.video && config.video_params is Some),
        audio_sources is Some == (config.audio && config.audio_params is Some),
        sources_have_ids(*video_sources),
        sources_have_ids(*audio_sources),
    ensures
        r.video == config.video,
        r.videoReceiveEnabled == Some(config.video_redirect is Some),
        r.audio == config.audio,
        r.audioReceiveEnabled == Some(config.audio_redirect is Some),
        r.metadata is None,
        r.video_params is Some == (config.video && config.video_params is Some),
        r.audio_params is Some == (config.audio && config.audio_params is Some),
        sent_through_sources(config.video_params, *video_sources, r.video_params),
        sent_through_sources(config.audio_params, *audio_sources, r.audio_params),
{
    let video_params = params_from_sources(&config.video_params, video_sources);
    let audio_params = params_from_sources(&config.audio_params, audio_sources);
    constraints_for(config, video_params, audio_params)
}

/// A socket without identifier at `socket`.
pub open spec fn spec_plain_socket(
    s: Option<SocketInfo<PhantomId>>,
    socket: SocketAddress,
) -> bool {
    s matches Some(v) && v@.id is None && v@.socket == socket
}

/// Where the received media of a call or answer goes, as the settings say: for each kind
/// with redirect settings, its media and RTCP sockets; none for the others.
pub fn create_redirect(config: &MediaConfig) -> (r: RedirectParameters)
    ensures
        match config.video_redirect {
            Some(c) => spec_plain_socket(r.video, c.media) && spec_plain_socket(
                r.video_rtcp,
                c.rtcp,
            ),
            None => r.video is None && r.video_rtcp is None,
        },
        match config.audio_redirect {
            Some(c) => spec_plain_socket(r.audio, c.media) && spec_plain_socket(
                r.audio_rtcp,
                c.rtcp,
            ),
            None => r.audio is None && r.audio_rtcp is None,
        },
{
    let mut redirect_params = RedirectParameters {
        video: None,
        video_rtcp: None,
        audio: None,
        audio_rtcp: None,
    };
    if let Some(c) = config.video_redirect {
        redirect_params.video = Some(SocketInfo::new(None, c.media));
        redirect_params.video_rtcp = Some(SocketInfo::new(None, c.rtcp));
    }
    if let Some(c) = config.audio_redirect {
        redirect_params.audio = Some(SocketInfo::new(None, c.media));
        redirect_params.audio_rtcp = Some(SocketInfo::new(None, c.rtcp));
    }
    redirect_params
}

/// The query that connects the Peer Object to `target_id`, sending the data of `data_socket`
/// and redirecting what it receives to `redirect`.
pub fn connect_query_for(
    peer_info: &PeerInfo,
    target_id: PeerId,
    data_socket: &SocketInfo<DataId>,
    redirect: SocketInfo<PhantomId>,
) -> (r: ConnectQuery)
    requires
        data_socket@.id is Some,
    ensures
        r.peer_id == peer_info.spec_peer_id(),
        r.token == peer_info.spec_token(),
        r.options is None,
        r.target_id == target_id,
        r.params matches Some(w) && Some(w.data_id.spec_str()) == data_socket@.id,
        r.redirect_params matches Some(s) && s@ == redirect@,
{
    let data_id = data_socket.get_id();
    let data_id = match data_id {
        Some(id) => id,
        None => vstd::pervasive::unreached(),
    };
    ConnectQuery {
        peer_id: peer_info.peer_id(),
        token: peer_info.token(),
        options: None,
        target_id,
        params: Some(DataIdWrapper { data_id }),
        redirect_params: Some(redirect),
    }
}

/// The query that sets where a DataConnection that a neighbour opened sends and redirects
/// data.
pub fn redirect_params_for(data_socket: &SocketInfo<DataId>, redirect: SocketInfo<PhantomId>) -> (r:
    RedirectDataParams)
    requires
        data_socket@.id is Some,
    ensures
        r.feed_params matches Some(w) && Some(w.data_id.spec_str()) == data_socket@.id,
        r.redirect_params matches Some(s) && s@ == redirect@,
{
    let data_id = data_socket.get_id();
    let data_id = match data_id {
        Some(id) => id,
        None => vstd::pervasive::unreached(),
    };
    RedirectDataParams {
        feed_params: Some(DataIdWrapper { data_id }),
        redirect_params: Some(redirect),
    }
}

/// The query that calls `target_id` from the Peer Object, sending as `constraints` say and
/// redirecting what it receives as `redirect_params` say.
pub fn call_query_for(
    peer_info: &PeerInfo,
    target_id: PeerId,
    constraints: Constraints,
    redirect_params: RedirectParameters,
) -> (r: CallQuery)
    ensures
        r.peer_id == peer_info.spec_peer_id(),
        r.token == peer_info.spec_token(),
        r.target_id == target_id,
        r.constraints == Some(constraints),
        r.redirect_params == Some(redirect_params),
{
    CallQuery {
        peer_id: peer_info.peer_id(),
        token: peer_info.token(),
        target_id,
        constraints: Some(constraints),
        redirect_params: Some(redirect_params),
    }
}

/// The query that answers a call, sending as `constraints` say and redirecting what it
/// receives as `redirect_params` say.
pub fn answer_query_for(constraints: Constraints, redirect_params: RedirectParameters) -> (r:
    AnswerQuery)
    ensures
        r.constraints == constraints,
        r.redirect_params == Some(redirect_params),
{
    AnswerQuery { constraints, redirect_params: Some(redirect_params) }
}

} // verus!
