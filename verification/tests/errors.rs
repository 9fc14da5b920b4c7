use chat_gateway::error::{
    Error, ErrorEnvelope, ErrorResponse, ErrorType, BAD_REQUEST, INTERNAL_SERVER_ERROR,
    UNAUTHORIZED,
};
use chat_gateway::state::AppState;
use std::sync::Arc;

#[test]
fn a_malformed_body_is_a_bad_request() {
    let text = "Failed to parse the request body as JSON: EOF while parsing an object";
    let response = Error::RequestBodyInvalid(text.to_owned()).into_response();
    assert_eq!(
        response,
        ErrorResponse {
            status: 400,
            body: ErrorEnvelope {
                message: text.to_owned(),
                type_field: ErrorType::InvalidRequestError,
                param: None,
            },
        }
    );
    assert_eq!(response.body.type_field.as_str(), "invalid_request_error");
}

#[test]
fn a_rejected_key_is_unauthorized() {
    let response = Error::InvalidApiKey.into_response();
    assert_eq!(
        response,
        ErrorResponse {
            status: 401,
            body: ErrorEnvelope {
                message: "Invalid API key".to_owned(),
                type_field: ErrorType::InvalidRequestError,
                param: None,
            },
        }
    );
    assert_eq!(response.body.type_field.as_str(), "invalid_request_error");
}

#[test]
fn any_other_failure_is_a_server_error() {
    let response = Error::Internal("connection reset by peer".to_owned()).into_response();
    assert_eq!(
        response,
        ErrorResponse {
            status: 500,
            body: ErrorEnvelope {
                message: "connection reset by peer".to_owned(),
                type_field: ErrorType::ServerError,
                param: None,
            },
        }
    );
    assert_eq!(response.body.type_field.as_str(), "server_error");
}

#[test]
fn a_failed_key_check_goes_out_as_401() {
    let state = AppState::new(reqwest::Client::new(), Arc::new(Some("sk-secret".to_owned())));
    for bearer in [None, Some("sk-wrong")] {
        let error = state.valid_key(bearer).unwrap_err();
        let response = error.into_response();
        assert_eq!(response.status, 401);
        assert_eq!(response.body.type_field, ErrorType::InvalidRequestError);
        assert_eq!(response.body.param, None);
    }
}

#[test]
fn status_codes_are_the_http_ones() {
    assert_eq!(BAD_REQUEST, 400);
    assert_eq!(UNAUTHORIZED, 401);
    assert_eq!(INTERNAL_SERVER_ERROR, 500);
}

#[test]
fn the_message_is_the_text_of_the_error() {
    assert_eq!(Error::RequestBodyInvalid("bad body".to_owned()).message(), "bad body");
    assert_eq!(Error::InvalidApiKey.message(), "Invalid API key");
    assert_eq!(Error::Internal("boom".to_owned()).message(), "boom");
    assert_eq!(Error::Internal(String::new()).message(), "");
}

#[test]
fn an_empty_message_is_kept_empty() {
    let response = Error::RequestBodyInvalid(String::new()).into_response();
    assert_eq!(response.status, 400);
    assert_eq!(response.body.message, "");
    assert_eq!(response.body.param, None);
}

#[test]
fn envelope_types_have_their_wire_names() {
    assert_eq!(ErrorType::InvalidRequestError.as_str(), "invalid_request_error");
    assert_eq!(ErrorType::ServerError.as_str(), "server_error");
}
