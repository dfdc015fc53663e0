use skyway_webrtc_gateway_api::error;
use skyway_webrtc_gateway_api::peer::Token;

#[test]
fn create_token_success() {
    let token = Token::try_create("pt-9749250e-d157-4f80-9ee2-359ce8524308").unwrap();
    assert_eq!(token.as_str(), "pt-9749250e-d157-4f80-9ee2-359ce8524308");
}

#[test]
fn create_token_not_start_with_pt() {
    // peer token's prefix is "pt-"
    let token = Token::try_create("vi-9749250e-d157-4f80-9ee2-359ce8524308");
    if let Err(error::Error::LocalError(err)) = token {
        assert_eq!(err.as_str(), "token str\'s prefix is \"pt-\"");
    } else {
        unreachable!();
    }
}

#[test]
fn create_token_not_sufficient_length() {
    // this test is executed with 38 chars
    let token = Token::try_create("pt-9749250e-d157-4f80-9ee2-359ce852430");
    if let Err(error::Error::LocalError(err)) = token {
        assert_eq!(err.as_str(), "token str\'s length should be 39");
    } else {
        unreachable!();
    }
}

#[test]
fn create_token_too_long() {
    // this test is executed with 40 chars
    let token = Token::try_create("pt-9749250e-d157-4f80-9ee2-359ce85243080");
    if let Err(error::Error::LocalError(err)) = token {
        assert_eq!(err.as_str(), "token str\'s length should be 39");
    } else {
        unreachable!();
    }
}

#[test]
fn create_token_not_ascii_str() {
    let token = Token::try_create("pt-9749250e-d157-4f80-9ee2-359ce8524あ");
    if let Err(error::Error::LocalError(err)) = token {
        assert_eq!(err.as_str(), "token str should be ascii");
    } else {
        unreachable!();
    }
}

/// Reads the `token` field of a JSON object the way the token's deserializer does.
fn token_from_json(json: &str) -> Result<Token, String> {
    let value: serde_json::Value = serde_json::from_str(json).map_err(|e| e.to_string())?;
    let text = value["token"].as_str().ok_or_else(|| "token is not a string".to_string())?;
    Token::from_wire(text)
}

#[test]
fn deserialize_ok() {
    let token = token_from_json(r#"{"token": "pt-9749250e-d157-4f80-9ee2-359ce8524308"}"#).unwrap();
    assert_eq!(token.as_str(), "pt-9749250e-d157-4f80-9ee2-359ce8524308");
}

#[test]
fn deserialize_err() {
    // this test is executed with 38 chars
    let result = token_from_json(r#"{"token": "pt-9749250e-d157-4f80-9ee2-359ce852430"}"#);
    assert!(result.is_err());
}
