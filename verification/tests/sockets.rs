use skyway_webrtc_gateway_api::common::{
    identify_field, value_from_text, DecodeIssue, IpAddress, PhantomId, SerializableId, SocketAddress,
    SocketField, SocketInfo, SocketInfoBuilder,
};
use skyway_webrtc_gateway_api::data::DataId;
use skyway_webrtc_gateway_api::media::MediaId;

const DATA_ID: &str = "da-50a32bab-b3d9-4913-8e20-f79c90a6a211";

/// Writes a socket as its fields, then reads them back as a deserializer would.
fn round_trip<T: SerializableId>(
    socket: &SocketInfo<T>,
) -> SocketInfo<T> {
    let mut builder = SocketInfoBuilder::new();
    if let Some((key, id)) = socket.id_field() {
        assert_eq!(identify_field(key), Some(SocketField::Id));
        builder.accept_id(id).unwrap();
    }
    assert_eq!(identify_field(socket.ip_field_name()), Some(SocketField::Ip));
    let written_ip = format!("{:?}", socket.ip());
    builder.accept_ip(written_ip.clone()).unwrap();
    assert_eq!(identify_field("port"), Some(SocketField::Port));
    builder.accept_port(socket.port()).unwrap();
    // The address text comes back as it was written; reading it as an address is done
    // where the standard library's network types are at hand.
    assert_eq!(builder.ip_text().unwrap(), written_ip);
    SocketInfo::new(builder.id(), SocketAddress { ip: socket.ip(), port: builder.port().unwrap() })
}

#[test]
fn socket_v4_fields_round_trip() {
    let original_addr = SocketAddress { ip: IpAddress::V4(0x7f00_0001), port: 8000 };
    let socket_info = SocketInfo::<PhantomId>::new(None, original_addr);
    assert_eq!(socket_info.ip_field_name(), "ip_v4");
    assert_eq!(socket_info.id_field(), None);
    let decoded_socket_info = round_trip(&socket_info);
    assert_eq!(socket_info, decoded_socket_info);
}

#[test]
fn socket_v6_fields_round_trip() {
    let original_addr = SocketAddress {
        ip: IpAddress::V6(0x2001_0db8_0000_0000_0008_0800_200c_417a),
        port: 8000,
    };
    let socket_info = SocketInfo::<PhantomId>::new(None, original_addr);
    assert_eq!(socket_info.ip_field_name(), "ip_v6");
    let decoded_socket_info = round_trip(&socket_info);
    assert_eq!(socket_info, decoded_socket_info);
}

#[test]
fn socket_with_id_round_trips() {
    let addr = SocketAddress { ip: IpAddress::V4(0x7f00_0001), port: 50000 };
    let socket = SocketInfo::<DataId>::new(Some(DATA_ID.to_string()), addr);
    assert_eq!(socket.key(), "data_id");
    assert_eq!(socket.id_field(), Some(("data_id", DATA_ID.to_string())));
    assert_eq!(socket.get_id(), Some(DataId::try_create(DATA_ID).unwrap()));
    assert_eq!(socket.addr(), addr);
    assert_eq!(round_trip(&socket), socket);
    assert_eq!(socket.clone(), socket);
}

#[test]
fn invalid_id_is_dropped() {
    let addr = SocketAddress { ip: IpAddress::V4(1), port: 1 };
    let socket = SocketInfo::<MediaId>::new(Some("vi-test".to_string()), addr);
    assert_eq!(socket.get_id(), None);
    assert_eq!(socket.key(), "");
    let phantom = SocketInfo::<PhantomId>::new(Some(DATA_ID.to_string()), addr);
    assert_eq!(phantom.get_id(), None);
}

#[test]
fn field_names() {
    assert_eq!(identify_field("ip_v4"), Some(SocketField::Ip));
    assert_eq!(identify_field("ip_v6"), Some(SocketField::Ip));
    assert_eq!(identify_field("port"), Some(SocketField::Port));
    assert_eq!(identify_field("media_id"), Some(SocketField::Id));
    assert_eq!(identify_field("_id"), Some(SocketField::Id));
    assert_eq!(identify_field("ip"), None);
    assert_eq!(identify_field("ports"), None);
    assert_eq!(identify_field("id"), None);
}

#[test]
fn duplicate_fields_are_refused() {
    let mut builder = SocketInfoBuilder::new();
    builder.accept_ip("127.0.0.1".to_string()).unwrap();
    assert_eq!(
        builder.accept_ip("::1".to_string()),
        Err(DecodeIssue::DuplicateField("ip_v4".to_string()))
    );
    assert_eq!(builder.ip_text().unwrap(), "127.0.0.1");
    builder.accept_port(1).unwrap();
    assert_eq!(builder.accept_port(2), Err(DecodeIssue::DuplicateField("port".to_string())));
    assert_eq!(builder.port(), Ok(1));
    builder.accept_id("a".to_string()).unwrap();
    assert_eq!(builder.accept_id("b".to_string()), Err(DecodeIssue::DuplicateField("id".to_string())));
    assert_eq!(builder.id(), Some("a".to_string()));
}

#[test]
fn missing_fields_are_reported() {
    let builder = SocketInfoBuilder::new();
    assert_eq!(builder.ip_text(), Err(DecodeIssue::MissingField("ip_v4 or ip_v6".to_string())));
    assert_eq!(builder.port(), Err(DecodeIssue::MissingField("port".to_string())));
    assert_eq!(builder.id(), None);
}

#[test]
fn not_available_means_nothing() {
    assert_eq!(value_from_text::<bool>("n/a"), Ok(None));
    assert_eq!(value_from_text::<bool>("N/A"), Err("Unexpected string".to_string()));
    assert_eq!(value_from_text::<usize>(""), Err("Unexpected string".to_string()));
}
