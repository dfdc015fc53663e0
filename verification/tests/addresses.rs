use skyway_webrtc_gateway_api::data::{self, DataConnectionId, DataId};
use skyway_webrtc_gateway_api::media::{self, MediaConnectionId, MediaId, RtcpId};
use skyway_webrtc_gateway_api::common::SerializableId;
use skyway_webrtc_gateway_api::peer::{self, PeerId, PeerInfo};
use skyway_webrtc_gateway_api::settings::BaseUrlCell;

const BASE: &str = "http://localhost:8000";
const TOKEN: &str = "pt-9749250e-d157-4f80-9ee2-359ce8524308";
const DC: &str = "dc-9749250e-d157-4f80-9ee2-359ce8524308";
const MC: &str = "mc-102127d9-30de-413b-93f7-41a33e39d82b";

#[test]
fn peer_addresses() {
    let info = PeerInfo::try_create("peer_id", TOKEN).unwrap();
    assert_eq!(peer::create_peer_url(BASE), "http://localhost:8000/peers");
    assert_eq!(peer::event_url(BASE, &info), format!("{}/peers/peer_id/events?token={}", BASE, TOKEN));
    assert_eq!(peer::delete_peer_url(BASE, &info), format!("{}/peers/peer_id?token={}", BASE, TOKEN));
    assert_eq!(peer::status_url(BASE, &info), format!("{}/peers/peer_id/status?token={}", BASE, TOKEN));
}

#[test]
fn peer_create_query() {
    let q = peer::create_query("key", "localhost", PeerId::new("peer_id"), true);
    assert_eq!(q.key, "key");
    assert_eq!(q.domain, "localhost");
    assert_eq!(q.peer_id, PeerId::new("peer_id"));
    assert!(q.turn);
}

#[test]
fn data_addresses() {
    let data_id = DataId::try_create("da-50a32bab-b3d9-4913-8e20-f79c90a6a211").unwrap();
    let dc = DataConnectionId::try_create(DC).unwrap();
    assert_eq!(data::create_data_url(BASE), "http://localhost:8000/data");
    assert_eq!(data::delete_data_url(BASE, &data_id), format!("{}/data/{}", BASE, data_id.as_str()));
    assert_eq!(data::create_data_connection_url(BASE), "http://localhost:8000/data/connections");
    assert_eq!(data::data_connection_url(BASE, &dc), format!("{}/data/connections/{}", BASE, DC));
    assert_eq!(data::status_url(BASE, &dc), format!("{}/data/connections/{}/status", BASE, DC));
    assert_eq!(data::event_url(BASE, &dc), format!("{}/data/connections/{}/events", BASE, DC));
}

#[test]
fn media_addresses() {
    let media_id = MediaId::try_create("vi-4d053831-5dc2-461b-a358-d062d6115216").unwrap();
    let rtcp_id = RtcpId::try_create("rc-4d053831-5dc2-461b-a358-d062d6115216").unwrap();
    let mc = MediaConnectionId::try_create(MC).unwrap();
    assert_eq!(media::create_media_url(BASE), "http://localhost:8000/media");
    assert_eq!(media::delete_media_url(BASE, &media_id), format!("{}/media/{}", BASE, media_id.as_str()));
    assert_eq!(media::create_rtcp_url(BASE), "http://localhost:8000/media/rtcp");
    assert_eq!(media::delete_rtcp_url(BASE, &rtcp_id), format!("{}/media/rtcp/{}", BASE, rtcp_id.as_str()));
    assert_eq!(media::create_call_url(BASE), "http://localhost:8000/media/connections");
    assert_eq!(media::delete_call_url(BASE, &mc), format!("{}/media/connections/{}", BASE, MC));
    assert_eq!(media::answer_url(BASE, &mc), format!("{}/media/connections/{}/answer", BASE, MC));
    assert_eq!(media::pli_url(BASE, &mc), format!("{}/media/connections/{}/pli", BASE, MC));
    assert_eq!(media::event_url(BASE, &mc), format!("{}/media/connections/{}/events", BASE, MC));
    assert_eq!(media::status_url(BASE, &mc), format!("{}/media/connections/{}/status", BASE, MC));
}

#[test]
fn first_initialization_wins() {
    let mut cell = BaseUrlCell::new();
    assert!(!cell.is_ready());
    cell.initialize(BASE);
    assert!(cell.is_ready());
    cell.initialize("http://elsewhere");
    assert_eq!(cell.base_url(), BASE);
}

#[test]
fn empty_base_url_is_not_ready() {
    let mut cell = BaseUrlCell::new();
    cell.initialize("");
    assert!(!cell.is_ready());
    cell.initialize(BASE);
    assert!(!cell.is_ready());
}
