# skyway_webrtc_gateway_api

Client bindings for the REST API of the SkyWay WebRTC Gateway, with the logic verified by
Verus.

- `src/` is the verified library: the gateway's identifiers (`PeerId`, `Token`, `DataId`,
  `DataConnectionId`, `MediaId`, `RtcpId`, `MediaConnectionId`) and their validation, the
  message formats, the sockets (`SocketInfo`) and how their JSON fields are written and
  read back, the address of every endpoint, how the status of a reply is read and what
  error a failing reply becomes, the step of each long-polling event listener, the
  gateway's base address, and the decisions of the interactive programs.
- `app/` is the rest: HTTP calls with `reqwest`, the JSON forms of the types with `serde`,
  IP addresses written as text, the event loops on `tokio`, and the interactive programs.
- `tests/` exercises the library.
