use skyway_webrtc_gateway_api::common::{PhantomId, SerializableId};
use skyway_webrtc_gateway_api::data::{DataConnectionId, DataId};
use skyway_webrtc_gateway_api::error::Error;
use skyway_webrtc_gateway_api::media::{MediaConnectionId, MediaId, RtcpId};
use skyway_webrtc_gateway_api::peer::{created_peer_info, CreatedResponse, PeerId, PeerInfo, Token};

const UUID: &str = "9749250e-d157-4f80-9ee2-359ce8524308";

fn with_prefix(prefix: &str) -> String {
    format!("{}{}", prefix, UUID)
}

fn local_message<T: std::fmt::Debug>(r: Result<T, Error>) -> String {
    match r {
        Err(Error::LocalError(m)) => m,
        other => panic!("expected a local error, got {:?}", other),
    }
}

#[test]
fn data_id_accepts_prefixed_uuid() {
    let text = with_prefix("da-");
    let id = DataId::try_create(&text).unwrap();
    assert_eq!(id.as_str(), text);
    assert_eq!(id.id(), text);
    assert_eq!(id.key(), "data_id");
}

#[test]
fn data_id_rejects_each_way() {
    assert_eq!(local_message(DataId::try_create(&with_prefix("dc-"))), "token str's prefix is \"da-\"");
    assert_eq!(local_message(DataId::try_create("da-short")), "token str's length should be 39");
    assert_eq!(
        local_message(DataId::try_create("da-9749250e-d157-4f80-9ee2-359ce8524あ")),
        "token str should be ascii"
    );
}

#[test]
fn data_connection_id_messages() {
    let text = with_prefix("dc-");
    assert_eq!(DataConnectionId::try_create(&text).unwrap().as_str(), text);
    assert_eq!(
        local_message(DataConnectionId::try_create(&with_prefix("da-"))),
        "data_connection_id's prefix is \"dc-\""
    );
    assert_eq!(local_message(DataConnectionId::try_create("dc-")), "token str's length should be 39");
}

#[test]
fn media_id_accepts_video_and_audio() {
    for prefix in ["vi-", "au-"] {
        let text = with_prefix(prefix);
        let id = MediaId::try_create(&text).unwrap();
        assert_eq!(id.as_str(), text);
        assert_eq!(id.key(), "media_id");
    }
    assert_eq!(
        local_message(MediaId::try_create(&with_prefix("rc-"))),
        "media_id's prefix is \"vi-\" or \"au-\""
    );
}

#[test]
fn rtcp_id_checks() {
    let text = with_prefix("rc-");
    let id = RtcpId::try_create(&text).unwrap();
    assert_eq!(id.as_str(), text);
    assert_eq!(id.key(), "rtcp_id");
    assert_eq!(local_message(RtcpId::try_create(&with_prefix("vi-"))), "rtcp_id's prefix is \"rc-\"");
}

#[test]
fn media_connection_id_keeps_its_message() {
    let text = with_prefix("mc-");
    assert_eq!(MediaConnectionId::try_create(&text).unwrap().as_str(), text);
    // The message names "rc-", as the gateway bindings always did.
    assert_eq!(
        local_message(MediaConnectionId::try_create(&with_prefix("vi-"))),
        "media_connection_id's prefix is \"rc-\""
    );
}

#[test]
fn length_is_counted_in_bytes() {
    // 36 ASCII characters and one of three bytes: 39 bytes, so only the ASCII check fails.
    let text = "pt-9749250e-d157-4f80-9ee2-359ce8524あ";
    assert_eq!(text.chars().count(), 37);
    assert_eq!(local_message(Token::try_create(text)), "token str should be ascii");
    // 38 characters of which one takes two bytes: 39 bytes, not ASCII.
    let text = "pt-9749250e-d157-4f80-9ee2-359ce85243é";
    assert_eq!(text.len(), 39);
    assert_eq!(local_message(Token::try_create(text)), "token str should be ascii");
}

#[test]
fn prefix_checked_before_length() {
    assert_eq!(local_message(Token::try_create("x")), "token str's prefix is \"pt-\"");
    assert_eq!(local_message(Token::try_create("")), "token str's prefix is \"pt-\"");
}

#[test]
fn every_issued_token_is_accepted_again() {
    let token = Token::try_create(&with_prefix("pt-")).unwrap();
    let again = Token::try_create(token.as_str()).unwrap();
    assert_eq!(token, again);
    assert_eq!(token.clone(), token);
}

#[test]
fn wire_messages_name_the_kind() {
    assert_eq!(
        Token::from_wire("pt-short").unwrap_err(),
        "fail to deserialize Token: token str's length should be 39"
    );
    assert_eq!(
        DataId::from_wire(&with_prefix("xx-")).unwrap_err(),
        "fail to deserialize DataId: token str's prefix is \"da-\""
    );
    assert_eq!(
        DataConnectionId::from_wire("dc-").unwrap_err(),
        "fail to deserialize DataId: token str's length should be 39"
    );
    assert_eq!(
        MediaId::from_wire("vi-").unwrap_err(),
        "fail to deserialize MediaId: token str's length should be 39"
    );
    assert_eq!(
        RtcpId::from_wire("rc-").unwrap_err(),
        "fail to deserialize RtcpId: token str's length should be 39"
    );
    assert_eq!(
        MediaConnectionId::from_wire("mc-").unwrap_err(),
        "fail to deserialize MediaId: token str's length should be 39"
    );
    assert_eq!(Token::from_wire(&with_prefix("pt-")).unwrap().as_str(), with_prefix("pt-"));
}

#[test]
fn phantom_id_never_exists() {
    assert!(PhantomId::try_create(&with_prefix("da-")).is_err());
    assert!(PhantomId::try_create("").is_err());
    assert_eq!(local_message(PhantomId::try_create("pt-x")), "PhantomId holds no id");
}

#[test]
fn peer_id_takes_any_text() {
    let id = PeerId::new("peer_id");
    assert_eq!(id.as_str(), "peer_id");
    assert_eq!(PeerId::new("").as_str(), "");
}

#[test]
fn peer_info_pairs_id_and_token() {
    let info = PeerInfo::try_create("peer_id", &with_prefix("pt-")).unwrap();
    assert_eq!(info.peer_id(), PeerId::new("peer_id"));
    assert_eq!(info.token().as_str(), with_prefix("pt-"));
    let again = PeerInfo::new(info.peer_id(), info.token());
    assert_eq!(again, info);
    assert_eq!(local_message(PeerInfo::try_create("peer_id", "token")), "token str's prefix is \"pt-\"");
}

#[test]
fn created_response_must_be_peers_create() {
    let info = PeerInfo::try_create("peer_id", &with_prefix("pt-")).unwrap();
    let ok = CreatedResponse { command_type: "PEERS_CREATE".into(), params: info.clone() };
    assert_eq!(created_peer_info(ok).unwrap(), info);
    let wrong = CreatedResponse { command_type: "PEERS_EVENTS".into(), params: info };
    assert_eq!(local_message(created_peer_info(wrong)), "recv command_type other than PEERS_CREATE");
}

#[test]
fn owned_wire_values_report_under_token() {
    assert_eq!(
        DataId::from_owned_wire(with_prefix("xx-")).unwrap_err(),
        "fail to deserialize Token: token str's prefix is \"da-\""
    );
    assert_eq!(
        DataConnectionId::from_owned_wire("dc-".to_string()).unwrap_err(),
        "fail to deserialize Token: token str's length should be 39"
    );
    assert_eq!(DataId::from_owned_wire(with_prefix("da-")).unwrap().as_str(), with_prefix("da-"));
    assert_eq!(
        DataConnectionId::from_owned_wire(with_prefix("dc-")).unwrap().as_str(),
        with_prefix("dc-")
    );
}
