use skyway_webrtc_gateway_api::api::{
    bad_request_message, classify_response, failure_error, is_timeout, ResponseKind,
};
use skyway_webrtc_gateway_api::data::{self, DataConnectionEventEnum, DataConnectionId};
use skyway_webrtc_gateway_api::error::Error;
use skyway_webrtc_gateway_api::media::{self, MediaConnectionEventEnum, MediaConnectionId};
use skyway_webrtc_gateway_api::peer::{self, PeerEventEnum, PeerInfo, PeerOpenEvent, PeerCloseEvent, PeerErrorEvent};

fn local(e: Error) -> String {
    match e {
        Error::LocalError(m) => m,
        other => panic!("expected a local error, got {:?}", other),
    }
}

#[test]
fn success_status_wins() {
    assert_eq!(classify_response(201, 201, false), Some(ResponseKind::Success));
    assert_eq!(classify_response(204, 204, true), Some(ResponseKind::Success));
    assert_eq!(classify_response(200, 200, true), Some(ResponseKind::Success));
}

#[test]
fn failing_statuses() {
    assert_eq!(classify_response(400, 200, true), Some(ResponseKind::BadRequest));
    assert_eq!(classify_response(403, 200, true), Some(ResponseKind::Forbidden));
    assert_eq!(classify_response(404, 200, true), Some(ResponseKind::NotFound));
    assert_eq!(classify_response(405, 200, true), Some(ResponseKind::MethodNotAllowed));
    assert_eq!(classify_response(406, 200, true), Some(ResponseKind::NotAcceptable));
    assert_eq!(classify_response(408, 200, true), Some(ResponseKind::RequestTimeout));
}

#[test]
fn unexpected_statuses() {
    assert_eq!(classify_response(404, 201, false), None);
    assert_eq!(classify_response(500, 200, true), None);
    assert_eq!(classify_response(200, 201, false), None);
}

#[test]
fn failure_messages() {
    let none: Vec<String> = Vec::new();
    assert_eq!(local(failure_error(ResponseKind::Forbidden, &none)), "recv Forbidden");
    assert_eq!(local(failure_error(ResponseKind::NotFound, &none)), "recv Not Found");
    assert_eq!(local(failure_error(ResponseKind::MethodNotAllowed, &none)), "recv Method Not Allowed");
    assert_eq!(local(failure_error(ResponseKind::NotAcceptable, &none)), "recv Not Acceptable");
    assert_eq!(local(failure_error(ResponseKind::RequestTimeout, &none)), "recv RequestTimeout");
}

#[test]
fn bad_request_lists_messages() {
    let messages = vec!["peer_id field is not specified".to_string(), "token is wrong".to_string()];
    assert_eq!(
        bad_request_message(&messages),
        "recv message\npeer_id field is not specified\ntoken is wrong"
    );
    assert_eq!(bad_request_message(&Vec::new()), "recv message");
    assert_eq!(
        local(failure_error(ResponseKind::BadRequest, &messages)),
        "recv message\npeer_id field is not specified\ntoken is wrong"
    );
}

#[test]
fn request_timeout_becomes_timeout_event() {
    let none: Vec<String> = Vec::new();
    let kind = classify_response(408, 200, true).unwrap();
    let error = failure_error(kind, &none);
    assert!(is_timeout(&error));
    assert_eq!(peer::reply_from_failure(error).unwrap(), peer::EventEnum::TIMEOUT);
    assert_eq!(
        data::reply_from_failure(failure_error(ResponseKind::RequestTimeout, &none)).unwrap(),
        data::EventEnum::TIMEOUT
    );
    assert_eq!(
        media::reply_from_failure(failure_error(ResponseKind::RequestTimeout, &none)).unwrap(),
        media::EventEnum::TIMEOUT
    );
}

#[test]
fn other_failures_stay_errors() {
    let none: Vec<String> = Vec::new();
    let e = peer::reply_from_failure(failure_error(ResponseKind::Forbidden, &none)).unwrap_err();
    assert_eq!(local(e), "recv Forbidden");
    assert!(!is_timeout(&Error::create_local_error("recv RequestTimeout ")));
    let messages = vec!["recv RequestTimeout".to_string()];
    assert!(!is_timeout(&failure_error(ResponseKind::BadRequest, &messages)));
}

fn dc_id() -> DataConnectionId {
    DataConnectionId::try_create("dc-9749250e-d157-4f80-9ee2-359ce8524308").unwrap()
}

fn mc_id() -> MediaConnectionId {
    MediaConnectionId::try_create("mc-102127d9-30de-413b-93f7-41a33e39d82b").unwrap()
}

#[test]
fn data_events_carry_the_connection() {
    let id = dc_id();
    assert_eq!(data::event_from_reply(&id, data::EventEnum::OPEN), DataConnectionEventEnum::OPEN(id.clone()));
    assert_eq!(data::event_from_reply(&id, data::EventEnum::CLOSE), DataConnectionEventEnum::CLOSE(id.clone()));
    assert_eq!(
        data::event_from_reply(&id, data::EventEnum::ERROR { error_message: "error".into() }),
        DataConnectionEventEnum::ERROR((id.clone(), "error".to_string()))
    );
    assert_eq!(data::event_from_reply(&id, data::EventEnum::TIMEOUT), DataConnectionEventEnum::TIMEOUT);
}

#[test]
fn data_listener_steps() {
    let id = dc_id();
    let step = data::listen_step(&id, data::EventEnum::OPEN);
    assert_eq!(step.notify, Some(DataConnectionEventEnum::OPEN(id.clone())));
    assert!(!step.finished);
    let step = data::listen_step(&id, data::EventEnum::TIMEOUT);
    assert_eq!(step.notify, None);
    assert!(!step.finished);
    let step = data::listen_step(&id, data::EventEnum::CLOSE);
    assert_eq!(step.notify, Some(DataConnectionEventEnum::CLOSE(id.clone())));
    assert!(step.finished);
    assert_eq!(local(data::notify_failure()), "fail to notify an event");
}

#[test]
fn media_listener_steps() {
    let id = mc_id();
    assert_eq!(media::event_from_reply(&id, media::EventEnum::READY), MediaConnectionEventEnum::READY(id.clone()));
    assert_eq!(media::event_from_reply(&id, media::EventEnum::STREAM), MediaConnectionEventEnum::STREAM(id.clone()));
    let step = media::listen_step(&id, media::EventEnum::ERROR { error_message: "e".into() });
    assert_eq!(step.notify, Some(MediaConnectionEventEnum::ERROR((id.clone(), "e".to_string()))));
    assert!(step.finished);
    let step = media::listen_step(&id, media::EventEnum::STREAM);
    assert!(!step.finished);
    let step = media::listen_step(&id, media::EventEnum::CLOSE);
    assert!(step.finished);
    assert_eq!(step.notify, Some(MediaConnectionEventEnum::CLOSE(id.clone())));
    assert_eq!(media::listen_step(&id, media::EventEnum::TIMEOUT).notify, None);
    assert_eq!(local(media::notify_failure()), "fail to notify an event");
}

#[test]
fn peer_listener_steps() {
    let info = PeerInfo::try_create("peer_id", "pt-9749250e-d157-4f80-9ee2-359ce8524308").unwrap();
    let open = PeerOpenEvent { params: info.clone() };
    let step = peer::listen_step(peer::EventEnum::OPEN(open.clone()));
    assert_eq!(step.notify, Some(PeerEventEnum::OPEN(open)));
    assert!(!step.finished);
    let error = PeerErrorEvent { params: info.clone(), error_message: "error".into() };
    let step = peer::listen_step(peer::EventEnum::ERROR(error.clone()));
    assert_eq!(step.notify, Some(PeerEventEnum::ERROR(error)));
    let step = peer::listen_step(peer::EventEnum::TIMEOUT);
    assert_eq!(step.notify, None);
    assert!(!step.finished);
    let close = PeerCloseEvent { params: info };
    let step = peer::listen_step(peer::EventEnum::CLOSE(close.clone()));
    assert_eq!(step.notify, Some(PeerEventEnum::CLOSE(close)));
    assert!(step.finished);
    assert!(local(peer::notify_failure()).starts_with("peer_create_and_listen_events"));
}

/// Runs a listener over replies as the event loop does: one step per reply until a step
/// says that listening ends. Returns what was passed on and how many replies were read.
fn run_peer_listener(replies: Vec<peer::EventEnum>) -> (Vec<PeerEventEnum>, usize) {
    let mut passed_on = Vec::new();
    let mut read = 0;
    for reply in replies {
        read += 1;
        let step = peer::listen_step(reply);
        if let Some(event) = step.notify {
            passed_on.push(event);
        }
        if step.finished {
            break;
        }
    }
    (passed_on, read)
}

#[test]
fn listener_passes_on_replies_up_to_close() {
    let info = PeerInfo::try_create("peer_id", "pt-9749250e-d157-4f80-9ee2-359ce8524308").unwrap();
    let open = PeerOpenEvent { params: info.clone() };
    let error = PeerErrorEvent { params: info.clone(), error_message: "error".into() };
    let close = PeerCloseEvent { params: info };
    let replies = vec![
        peer::EventEnum::OPEN(open.clone()),
        peer::EventEnum::TIMEOUT,
        peer::EventEnum::ERROR(error.clone()),
        peer::EventEnum::TIMEOUT,
        peer::EventEnum::CLOSE(close.clone()),
        peer::EventEnum::OPEN(open.clone()),
    ];
    let (passed_on, read) = run_peer_listener(replies);
    assert_eq!(read, 5);
    assert_eq!(
        passed_on,
        vec![PeerEventEnum::OPEN(open.clone()), PeerEventEnum::ERROR(error), PeerEventEnum::CLOSE(close)]
    );
    let (passed_on, read) = run_peer_listener(vec![peer::EventEnum::TIMEOUT, peer::EventEnum::OPEN(open.clone())]);
    assert_eq!(read, 2);
    assert_eq!(passed_on, vec![PeerEventEnum::OPEN(open)]);
}

#[test]
fn data_listener_stops_at_close() {
    let id = dc_id();
    let replies = vec![
        data::EventEnum::TIMEOUT,
        data::EventEnum::OPEN,
        data::EventEnum::CLOSE,
        data::EventEnum::OPEN,
    ];
    let mut passed_on = Vec::new();
    for reply in replies {
        let step = data::listen_step(&id, reply);
        if let Some(event) = step.notify {
            passed_on.push(event);
        }
        if step.finished {
            break;
        }
    }
    assert_eq!(
        passed_on,
        vec![DataConnectionEventEnum::OPEN(id.clone()), DataConnectionEventEnum::CLOSE(id)]
    );
}
