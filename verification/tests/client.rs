use rpc_server::types::error::{Error, ErrorKind};
use rpc_server::types::response::Response;
use serde_json::Value;

fn copy(response: &Response) -> Response {
    match (response.result(), response.error()) {
        (Some(value), _) => Response::success(value.clone()),
        (_, Some(error)) => Response::failure(Error::with_data(
            error.kind,
            error.message.clone(),
            error.data.clone(),
        )),
        _ => unreachable!(),
    }
}

#[test]
fn a_response_survives_encoding_and_decoding() {
    let responses = vec![
        Response::success(Value::from(5)),
        Response::success(Value::Null),
        Response::success(Value::from("HI")),
        Response::success(Value::from(vec![Value::from(1), Value::Null])),
        Response::failure(Error::method_not_found()),
        Response::failure(Error::of_kind(ErrorKind::RemoteDisconnect)),
        Response::failure(Error::with_data(
            ErrorKind::InvalidParams,
            "two numbers, please".to_string(),
            Some(Value::from(vec![Value::from(2)])),
        )),
    ];
    for response in responses {
        assert_eq!(Response::from_value(copy(&response).to_value()), Some(copy(&response)));
        let line = copy(&response).to_line().unwrap();
        let frame = &line.as_bytes()[..line.len() - 1];
        assert_eq!(Response::from_frame(frame), Some(response));
    }
}

#[test]
fn null_details_are_no_details() {
    let error = Error::with_data(ErrorKind::ParseError, "m".to_string(), Some(Value::Null));
    let back = Response::from_value(Response::failure(error).to_value()).unwrap();
    assert_eq!(back, Response::failure(Error::new(ErrorKind::ParseError, "m".to_string())));
}

#[test]
fn response_lines_are_read_back() {
    assert_eq!(
        Response::from_frame(b"{\"result\":5,\"error\":null}"),
        Some(Response::success(Value::from(5)))
    );
    assert_eq!(
        Response::from_frame(b"{\"result\":null,\"error\":null}"),
        Some(Response::success(Value::Null))
    );
    assert_eq!(
        Response::from_frame(b"{\"result\":\"HI\"}"),
        Some(Response::success(Value::from("HI")))
    );
    assert_eq!(
        Response::from_frame(
            b"{\"result\":null,\"error\":{\"kind\":\"MethodNotFound\",\"message\":\"Method not found!\",\"data\":null}}"
        ),
        Some(Response::failure(Error::method_not_found()))
    );
    assert_eq!(
        Response::from_frame(b"{\"error\":{\"kind\":\"ParseError\",\"message\":\"bad\"}}"),
        Some(Response::failure(Error::new(ErrorKind::ParseError, "bad".to_string())))
    );
}

#[test]
fn what_is_no_response_is_not_read() {
    for frame in [
        &b""[..],
        b"\xff",
        b"not json",
        b"[5,null]",
        b"{}",
        b"{\"error\":null}",
        b"{\"result\":5,\"error\":{\"kind\":\"ParseError\",\"message\":\"bad\",\"data\":null}}",
        b"{\"result\":null,\"error\":5}",
        b"{\"result\":null,\"error\":{\"message\":\"bad\"}}",
        b"{\"result\":null,\"error\":{\"kind\":\"ParseError\"}}",
        b"{\"result\":null,\"error\":{\"kind\":\"Unknown\",\"message\":\"bad\"}}",
        b"{\"result\":null,\"error\":{\"kind\":7,\"message\":\"bad\"}}",
        b"{\"result\":null,\"error\":{\"kind\":\"ParseError\",\"message\":7}}",
    ] {
        assert_eq!(Response::from_frame(frame), None);
    }
    assert_eq!(Response::from_parsed(None), None);
    assert_eq!(Response::from_parsed(Some(Value::from(5))), None);
    assert_eq!(Error::from_value(Value::Null), None);
}

#[test]
fn kinds_are_found_by_their_names() {
    for kind in [
        ErrorKind::MethodNotFound,
        ErrorKind::InvalidRequest,
        ErrorKind::RemoteDisconnect,
        ErrorKind::InvalidParams,
        ErrorKind::ParseError,
        ErrorKind::ServerShutDown,
    ] {
        assert_eq!(ErrorKind::from_name(&kind.name()), Some(kind));
    }
    assert_eq!(ErrorKind::from_name(&"parseerror".to_string()), None);
    assert_eq!(ErrorKind::from_name(&"".to_string()), None);
}
