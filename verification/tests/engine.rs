use rpc_server::config::Config;
use rpc_server::connection::Connection;
use rpc_server::frame::FrameReader;
use rpc_server::json::{has_no_newline, to_line};
use rpc_server::server::{Server, ServerState};
use rpc_server::types::error::{Error, ErrorKind};
use rpc_server::types::func_types::FuncTypes;
use rpc_server::types::params::Params;
use rpc_server::types::request::Request;
use rpc_server::types::response::Response;
use serde_json::Value;
use std::cell::RefCell;
use std::rc::Rc;

type Muting = Box<dyn FnMut(Params) -> Response>;
type Immuting = Box<dyn Fn(Params) -> Response>;
type TestServer = Server<Muting, Immuting>;

fn pure(f: impl Fn(Params) -> Response + 'static) -> FuncTypes<Muting, Immuting> {
    FuncTypes::ImmutingFunction(Box::new(f))
}

fn muting(f: impl FnMut(Params) -> Response + 'static) -> FuncTypes<Muting, Immuting> {
    FuncTypes::MutingFunction(Box::new(f))
}

fn listening() -> TestServer {
    let mut server = Server::new(Config::new("127.0.0.1".to_string(), "8080".to_string()));
    server.listen();
    server
}

fn add(params: Params) -> Response {
    match params {
        Params::Positional(items) if items.len() == 2 => {
            match (items[0].as_i64(), items[1].as_i64()) {
                (Some(a), Some(b)) => Response::success(Value::from(a + b)),
                _ => Response::failure(Error::invalid_params()),
            }
        }
        _ => Response::failure(Error::invalid_params()),
    }
}

fn shout(params: Params) -> Response {
    match params {
        Params::Named(members) => match members.get("msg").and_then(|v| v.as_str()) {
            Some(msg) => Response::success(Value::from(msg.to_uppercase())),
            None => Response::failure(Error::invalid_params()),
        },
        _ => Response::failure(Error::invalid_params()),
    }
}

fn fib(n: usize) -> i32 {
    let mut vals = (1, 0);
    for _ in 0..n {
        vals = (vals.1, vals.0 + vals.1);
    }
    vals.1
}

fn error_line(kind: &str, message: &str) -> String {
    format!(
        "{{\"result\":null,\"error\":{{\"kind\":\"{}\",\"message\":\"{}\",\"data\":null}}}}\n",
        kind, message
    )
}

fn named(pairs: Vec<(&str, Value)>) -> serde_json::Map<String, Value> {
    let mut members = serde_json::Map::new();
    for (key, value) in pairs {
        members.insert(key.to_string(), value);
    }
    members
}

#[test]
fn test_rpc_1() {
    let said: Rc<RefCell<Vec<String>>> = Rc::new(RefCell::new(Vec::new()));
    let mut server = listening();
    let log = said.clone();
    server.insert(
        "hello_world".to_string(),
        pure(move |_params| {
            log.borrow_mut().push("Hello world!".to_string());
            Response::success(Value::Null)
        }),
    );
    let log = said.clone();
    server.insert(
        "hello_body".to_string(),
        pure(move |_params| {
            log.borrow_mut().push("Hey body!".to_string());
            Response::success(Value::Null)
        }),
    );
    let log = said.clone();
    server.insert(
        "fibbonacci".to_string(),
        pure(move |params| {
            let f = match params {
                Params::Positional(vec) => fib(serde_json::from_value(vec[0].clone()).unwrap()),
                _ => unreachable!(),
            };
            log.borrow_mut().push(format!("{}", f));
            Response::success(Value::Null)
        }),
    );

    let mut wire: Vec<u8> = Vec::new();
    for method in ["hello_world", "hello_body", "hello_world", "hello_body"] {
        wire.extend(Request::new(method.into(), None).to_line().unwrap().into_bytes());
    }
    let fifth = Request::new(
        "fibbonacci".into(),
        Some(Params::Positional(vec![Value::from(5)])),
    );
    wire.extend(fifth.to_line().unwrap().into_bytes());
    wire.extend(Request::new("shutdown".into(), None).to_line().unwrap().into_bytes());

    let mut connection = Connection::new();
    connection.receive(&wire);
    let mut lines = Vec::new();
    while let Some(line) = connection.respond(&mut server) {
        lines.push(line);
    }
    assert_eq!(lines.len(), 6);
    for line in &lines[..5] {
        assert_eq!(line, "{\"result\":null,\"error\":null}\n");
    }
    assert_eq!(lines[5], error_line("ServerShutDown", "Server shut down!"));
    assert_eq!(
        *said.borrow(),
        vec!["Hello world!", "Hey body!", "Hello world!", "Hey body!", "5"]
    );
    assert!(!connection.is_open());
    assert_eq!(server.current_state(), ServerState::ShuttingDown);
}

#[test]
fn add_sums_two_positional_numbers() {
    let mut server = listening();
    server.insert("add".to_string(), pure(add));
    let line = server.handle(b"{\"method\":\"add\",\"params\":[2,3]}");
    assert_eq!(line, "{\"result\":5,\"error\":null}\n");
}

#[test]
fn shout_upper_cases_a_named_string() {
    let mut server = listening();
    server.insert("shout".to_string(), pure(shout));
    let line = server.handle(b"{\"method\":\"shout\",\"params\":{\"msg\":\"hi\"}}");
    assert_eq!(line, "{\"result\":\"HI\",\"error\":null}\n");
}

#[test]
fn a_handler_reports_parameters_it_cannot_use() {
    let mut server = listening();
    server.insert("add".to_string(), pure(add));
    server.insert("shout".to_string(), pure(shout));
    let expected = error_line("InvalidParams", "Invalid params!");
    assert_eq!(server.handle(b"{\"method\":\"add\",\"params\":{\"a\":2,\"b\":3}}"), expected);
    assert_eq!(server.handle(b"{\"method\":\"add\"}"), expected);
    assert_eq!(server.handle(b"{\"method\":\"shout\",\"params\":[\"hi\"]}"), expected);
    assert!(server.is_listening());
}

#[test]
fn an_unregistered_method_is_not_found() {
    let mut server = listening();
    server.insert("add".to_string(), pure(add));
    for name in ["sub", "", "Add", "add ", "shutdown2"] {
        let response = server.dispatch(Request::new(name.to_string(), None));
        assert_eq!(response, Response::failure(Error::method_not_found()));
        assert_eq!(response.error().unwrap().kind, ErrorKind::MethodNotFound);
        assert!(response.result().is_none());
    }
    let line = server.handle(b"{\"method\":\"sub\",\"params\":[2,3]}");
    assert_eq!(line, error_line("MethodNotFound", "Method not found!"));
    assert!(server.is_listening());
}

#[test]
fn the_last_handler_bound_to_a_name_answers() {
    let mut server = listening();
    server.insert("which".to_string(), pure(|_| Response::success(Value::from("first"))));
    server.insert("other".to_string(), pure(|_| Response::success(Value::from("other"))));
    assert_eq!(server.handle(b"{\"method\":\"which\"}"), "{\"result\":\"first\",\"error\":null}\n");
    server.insert("which".to_string(), muting(|_| Response::success(Value::from("second"))));
    for _ in 0..3 {
        assert_eq!(
            server.handle(b"{\"method\":\"which\"}"),
            "{\"result\":\"second\",\"error\":null}\n"
        );
    }
    assert_eq!(server.handle(b"{\"method\":\"other\"}"), "{\"result\":\"other\",\"error\":null}\n");
}

#[test]
fn named_and_positional_stay_apart() {
    let by_name = Request::from_frame(b"{\"method\":\"m\",\"params\":{\"a\":1,\"b\":2}}").unwrap();
    let by_place = Request::from_frame(b"{\"method\":\"m\",\"params\":[1,2]}").unwrap();
    assert_eq!(
        by_name.params,
        Some(Params::Named(named(vec![("a", Value::from(1)), ("b", Value::from(2))])))
    );
    assert_eq!(
        by_place.params,
        Some(Params::Positional(vec![Value::from(1), Value::from(2)]))
    );
    assert_ne!(by_name.params, by_place.params);
    let empty_by_name = Request::from_frame(b"{\"method\":\"m\",\"params\":{}}").unwrap();
    let empty_by_place = Request::from_frame(b"{\"method\":\"m\",\"params\":[]}").unwrap();
    assert_eq!(empty_by_name.params, Some(Params::Named(serde_json::Map::new())));
    assert_eq!(empty_by_place.params, Some(Params::Positional(vec![])));
    assert_ne!(empty_by_name.params, empty_by_place.params);
}

#[test]
fn absent_parameters_decode_to_none() {
    let omitted = Request::from_frame(b"{\"method\":\"m\"}").unwrap();
    assert_eq!(omitted, Request::new("m".to_string(), None));
    let null = Request::from_frame(b"{\"method\":\"m\",\"params\":null}").unwrap();
    assert_eq!(null, Request::new("m".to_string(), Some(Params::Absent)));
    let mut server = listening();
    server.insert(
        "seen".to_string(),
        pure(|params| Response::success(Value::from(params == Params::Absent))),
    );
    assert_eq!(server.handle(b"{\"method\":\"seen\"}"), "{\"result\":true,\"error\":null}\n");
    assert_eq!(
        server.handle(b"{\"method\":\"seen\",\"params\":null}"),
        "{\"result\":true,\"error\":null}\n"
    );
    assert_eq!(
        server.handle(b"{\"method\":\"seen\",\"params\":[]}"),
        "{\"result\":false,\"error\":null}\n"
    );
}

#[test]
fn a_request_survives_encoding_and_decoding() {
    let requests = vec![
        Request::new("plain".to_string(), None),
        Request::new("absent".to_string(), Some(Params::Absent)),
        Request::new(
            "by_place".to_string(),
            Some(Params::Positional(vec![
                Value::from(1),
                Value::from("two"),
                Value::Null,
                Value::from(vec![Value::from(true)]),
            ])),
        ),
        Request::new("no_places".to_string(), Some(Params::Positional(vec![]))),
        Request::new(
            "by_name".to_string(),
            Some(Params::Named(named(vec![
                ("b", Value::from(2)),
                ("a", Value::from("x\ny")),
                ("method", Value::from("inner")),
            ]))),
        ),
        Request::new("no_names".to_string(), Some(Params::Named(serde_json::Map::new()))),
        Request::new("na\u{ef}ve \"quoted\"".to_string(), None),
    ];
    for request in requests {
        let method = request.method.clone();
        let params = match &request.params {
            None => None,
            Some(Params::Absent) => Some(Params::Absent),
            Some(Params::Positional(items)) => Some(Params::Positional(items.clone())),
            Some(Params::Named(members)) => Some(Params::Named(members.clone())),
        };
        let copy = Request::new(method.clone(), params);
        let value = copy.to_value();
        assert_eq!(Request::from_value(value).unwrap(), request);

        let params = match &request.params {
            None => None,
            Some(Params::Absent) => Some(Params::Absent),
            Some(Params::Positional(items)) => Some(Params::Positional(items.clone())),
            Some(Params::Named(members)) => Some(Params::Named(members.clone())),
        };
        let line = Request::new(method, params).to_line().unwrap();
        assert!(line.ends_with('\n'));
        assert_eq!(line.matches('\n').count(), 1);
        let frame = &line.as_bytes()[..line.len() - 1];
        assert_eq!(Request::from_frame(frame).unwrap(), request);
    }
}

#[test]
fn request_lines_have_the_wire_shape() {
    assert_eq!(
        Request::new("hello_world".to_string(), None).to_line().unwrap(),
        "{\"method\":\"hello_world\"}\n"
    );
    assert_eq!(
        Request::new("m".to_string(), Some(Params::Absent)).to_line().unwrap(),
        "{\"method\":\"m\",\"params\":null}\n"
    );
    assert_eq!(
        Request::new("add".to_string(), Some(Params::Positional(vec![Value::from(2), Value::from(3)])))
            .to_line()
            .unwrap(),
        "{\"method\":\"add\",\"params\":[2,3]}\n"
    );
    assert_eq!(
        Request::new(
            "shout".to_string(),
            Some(Params::Named(named(vec![("msg", Value::from("hi"))])))
        )
        .to_line()
        .unwrap(),
        "{\"method\":\"shout\",\"params\":{\"msg\":\"hi\"}}\n"
    );
    assert_eq!(TestServer::shutdown().to_line().unwrap(), "{\"method\":\"shutdown\"}\n");
}

#[test]
fn response_lines_have_the_wire_shape() {
    assert_eq!(
        Response::success(Value::from(5)).to_line().unwrap(),
        "{\"result\":5,\"error\":null}\n"
    );
    assert_eq!(
        Response::success(Value::Null).to_line().unwrap(),
        "{\"result\":null,\"error\":null}\n"
    );
    assert_eq!(
        Response::failure(Error::method_not_found()).to_line().unwrap(),
        "{\"result\":null,\"error\":{\"kind\":\"MethodNotFound\",\"message\":\"Method not found!\",\"data\":null}}\n"
    );
    let detailed = Error::with_data(
        ErrorKind::InvalidParams,
        "expected \"two\" numbers".to_string(),
        Some(Value::from(vec![Value::from(1)])),
    );
    assert_eq!(
        Response::failure(detailed).to_line().unwrap(),
        "{\"result\":null,\"error\":{\"kind\":\"InvalidParams\",\"message\":\"expected \\\"two\\\" numbers\",\"data\":[1]}}\n"
    );
}

#[test]
fn every_kind_travels_under_its_name() {
    let kinds = vec![
        (ErrorKind::MethodNotFound, "MethodNotFound", "Method not found!"),
        (ErrorKind::InvalidRequest, "InvalidRequest", "Invalid Request!"),
        (ErrorKind::RemoteDisconnect, "RemoteDisconnect", "Remote disconnected!"),
        (ErrorKind::InvalidParams, "InvalidParams", "Invalid params!"),
        (ErrorKind::ParseError, "ParseError", "Parse error!"),
        (ErrorKind::ServerShutDown, "ServerShutDown", "Server shut down!"),
    ];
    for (kind, name, message) in kinds {
        assert_eq!(kind.name(), name);
        let error = Error::of_kind(kind);
        assert_eq!(error.kind, kind);
        assert_eq!(error.message, message);
        assert_eq!(error.data, None);
        assert_eq!(Response::failure(error).to_line().unwrap(), error_line(name, message));
    }
    assert_eq!(Error::method_not_found(), Error::of_kind(ErrorKind::MethodNotFound));
    assert_eq!(Error::invalid_request(), Error::of_kind(ErrorKind::InvalidRequest));
    assert_eq!(Error::invalid_params(), Error::of_kind(ErrorKind::InvalidParams));
    assert_eq!(Error::parse_error(), Error::of_kind(ErrorKind::ParseError));
    assert_eq!(
        Error::new(ErrorKind::ParseError, "m".to_string()),
        Error::with_data(ErrorKind::ParseError, "m".to_string(), None)
    );
}

#[test]
fn a_response_is_a_result_or_an_error() {
    let good = Response::success(Value::from(1));
    assert!(good.is_success());
    assert_eq!(good.result(), Some(&Value::from(1)));
    assert!(good.error().is_none());
    assert_eq!(good.into_result(), Ok(Value::from(1)));
    let bad = Response::failure(Error::invalid_request());
    assert!(!bad.is_success());
    assert!(bad.result().is_none());
    assert_eq!(bad.error(), Some(&Error::invalid_request()));
    assert_eq!(bad.into_result(), Err(Error::invalid_request()));
}

#[test]
fn malformed_json_is_a_parse_error_and_the_connection_goes_on() {
    let mut server = listening();
    server.insert("add".to_string(), pure(add));
    let mut connection = Connection::new();
    connection.receive(b"{\"method\":\"add\",\"params\":[2,\n{\"method\":\"add\",\"params\":[2,3]}\n");
    let parse_error = error_line("ParseError", "Parse error!");
    assert_eq!(connection.respond(&mut server), Some(parse_error.clone()));
    assert!(connection.is_open());
    assert!(server.is_listening());
    assert_eq!(
        connection.respond(&mut server),
        Some("{\"result\":5,\"error\":null}\n".to_string())
    );
    assert_eq!(connection.respond(&mut server), None);
    assert!(connection.is_open());

    assert_eq!(server.handle(b"\xff\xfe"), parse_error);
    assert_eq!(server.handle(b"{\"method\":\"add\"} trailing"), parse_error);
    assert_eq!(server.handle(b""), parse_error);
    assert_eq!(server.handle(b"{\"method\":\"add\",\"params\":[1,2]}\r"), "{\"result\":3,\"error\":null}\n");
}

#[test]
fn an_envelope_of_the_wrong_shape_is_an_invalid_request() {
    let mut server = listening();
    server.insert("add".to_string(), pure(add));
    let invalid = error_line("InvalidRequest", "Invalid Request!");
    for frame in [
        &b"[1,2]"[..],
        b"\"add\"",
        b"5",
        b"null",
        b"{}",
        b"{\"params\":[2,3]}",
        b"{\"method\":5}",
        b"{\"method\":null}",
        b"{\"method\":\"\"}",
        b"{\"method\":[\"add\"]}",
    ] {
        assert_eq!(server.handle(frame), invalid);
        assert_eq!(Request::from_frame(frame), Err(Error::invalid_request()));
    }
    let bad_params = error_line("InvalidParams", "Invalid params!");
    for frame in [
        &b"{\"method\":\"add\",\"params\":5}"[..],
        b"{\"method\":\"add\",\"params\":\"2,3\"}",
        b"{\"method\":\"add\",\"params\":true}",
    ] {
        assert_eq!(server.handle(frame), bad_params);
        assert_eq!(Request::from_frame(frame), Err(Error::invalid_params()));
    }
    assert_eq!(
        server.handle(b"{\"id\":7,\"method\":\"add\",\"params\":[2,3]}"),
        "{\"result\":5,\"error\":null}\n"
    );
    assert_eq!(Request::from_parsed(None), Err(Error::parse_error()));
    assert_eq!(
        Request::from_parsed(Some(Value::from("text"))),
        Err(Error::invalid_request())
    );
    assert_eq!(Params::from_value(Value::from(1)), Err(Error::invalid_params()));
    assert_eq!(Params::from_value(Value::Null), Ok(Params::Absent));
    assert_eq!(Params::Absent.to_value(), Value::Null);
    assert_eq!(
        Params::Positional(vec![Value::from(1)]).to_value(),
        Value::from(vec![Value::from(1)])
    );
}

#[test]
fn increments_from_two_connections_are_all_counted() {
    let counter = Rc::new(RefCell::new(0u64));
    let mut server = listening();
    let mut count: u64 = 0;
    let seen = counter.clone();
    server.insert(
        "increment".to_string(),
        muting(move |_params| {
            count += 1;
            *seen.borrow_mut() = count;
            Response::success(Value::from(count))
        }),
    );
    let mut first = Connection::new();
    let mut second = Connection::new();
    let mut answered = 0;
    for _ in 0..100 {
        first.receive(b"{\"method\":\"increment\"}\n");
        second.receive(b"{\"method\":\"increment\"}\n");
        while first.respond(&mut server).is_some() {
            answered += 1;
        }
        while second.respond(&mut server).is_some() {
            answered += 1;
        }
    }
    assert_eq!(answered, 200);
    assert_eq!(*counter.borrow(), 200);
    assert_eq!(
        server.handle(b"{\"method\":\"increment\"}"),
        "{\"result\":201,\"error\":null}\n"
    );
}

#[test]
fn shutdown_ends_listening_for_every_connection() {
    let mut server = listening();
    server.insert("add".to_string(), pure(add));
    server.insert(
        "shutdown".to_string(),
        pure(|_| Response::success(Value::from("never called"))),
    );
    let mut first = Connection::new();
    let mut second = Connection::new();
    second.receive(b"{\"method\":\"add\",\"params\":[1,1]}\n");
    first.receive(b"{\"method\":\"shutdown\"}\n{\"method\":\"add\",\"params\":[2,3]}\n");
    assert_eq!(
        first.respond(&mut server),
        Some(error_line("ServerShutDown", "Server shut down!"))
    );
    assert!(!server.is_listening());
    assert_eq!(server.current_state(), ServerState::ShuttingDown);
    assert_eq!(first.respond(&mut server), None);
    assert!(!first.is_open());
    assert_eq!(second.respond(&mut server), None);
    assert!(!second.is_open());
    assert_eq!(
        server.handle(b"{\"method\":\"add\",\"params\":[2,3]}"),
        error_line("ServerShutDown", "Server shut down!")
    );
    server.listen();
    assert_eq!(server.current_state(), ServerState::ShuttingDown);
    server.stop();
    assert_eq!(server.current_state(), ServerState::Stopped);
    server.listen();
    server.stop();
    assert_eq!(server.current_state(), ServerState::Stopped);
    assert!(!server.is_listening());
}

#[test]
fn a_server_answers_only_while_it_listens() {
    let mut server: TestServer =
        Server::new(Config::new("localhost".to_string(), "3000".to_string()));
    assert_eq!(server.get_url(), "localhost:3000");
    assert_eq!(server.current_state(), ServerState::Starting);
    server.insert("add".to_string(), pure(add));
    assert_eq!(
        server.handle(b"{\"method\":\"add\",\"params\":[2,3]}"),
        error_line("ServerShutDown", "Server shut down!")
    );
    assert_eq!(server.current_state(), ServerState::Starting);
    server.stop();
    assert_eq!(server.current_state(), ServerState::Starting);
    server.listen();
    assert_eq!(server.current_state(), ServerState::Listening);
    assert_eq!(
        server.handle_request(Request::new(
            "add".to_string(),
            Some(Params::Positional(vec![Value::from(2), Value::from(3)]))
        )),
        Response::success(Value::from(5))
    );
    assert_eq!(
        server.reply(b"{\"method\":\"add\",\"params\":[20,22]}"),
        Response::success(Value::from(42))
    );
    assert_eq!(
        server.dispatch(Request::new("add".to_string(), None)),
        Response::failure(Error::invalid_params())
    );
}

#[test]
fn handlers_know_their_kind() {
    let mut m = muting(|_| Response::success(Value::Null));
    let mut p = pure(|_| Response::success(Value::from(1)));
    assert!(m.is_muting());
    assert!(!m.is_immuting());
    assert!(p.is_immuting());
    assert!(!p.is_muting());
    assert_eq!(m.call(Params::Absent), Response::success(Value::Null));
    assert_eq!(TestServer::handle_method(&mut p, Params::Absent), Response::success(Value::from(1)));
}

#[test]
fn frames_end_at_newlines() {
    let mut reader = FrameReader::new();
    assert_eq!(reader.next_frame(), None);
    reader.push(b"one\ntw");
    assert_eq!(reader.len(), 6);
    assert_eq!(reader.next_frame(), Some(b"one".to_vec()));
    assert_eq!(reader.next_frame(), None);
    assert_eq!(reader.len(), 2);
    reader.push(b"o\n\nthree\n");
    assert_eq!(reader.next_frame(), Some(b"two".to_vec()));
    assert_eq!(reader.next_frame(), Some(b"".to_vec()));
    assert_eq!(reader.next_frame(), Some(b"three".to_vec()));
    assert_eq!(reader.next_frame(), None);
    assert_eq!(reader.len(), 0);
}

#[test]
fn a_connection_answers_each_line_in_order() {
    let mut server = listening();
    server.insert("add".to_string(), pure(add));
    let mut connection = Connection::new();
    assert_eq!(connection.respond(&mut server), None);
    connection.receive(b"\n\n{\"method\":\"add\",\"par");
    assert_eq!(connection.respond(&mut server), None);
    assert!(connection.is_open());
    connection.receive(b"ams\":[1,2]}\n\n{\"method\":\"add\",\"params\":[3,4]}\n{\"meth");
    assert_eq!(
        connection.respond(&mut server),
        Some("{\"result\":3,\"error\":null}\n".to_string())
    );
    assert_eq!(
        connection.respond(&mut server),
        Some("{\"result\":7,\"error\":null}\n".to_string())
    );
    assert_eq!(connection.respond(&mut server), None);
    assert!(connection.is_open());
    connection.receive(b"");
    assert!(!connection.is_open());
    assert_eq!(connection.respond(&mut server), None);
    assert!(server.is_listening());
}

#[test]
fn a_failed_read_ends_only_its_connection() {
    let mut server = listening();
    server.insert("add".to_string(), pure(add));
    let mut broken = Connection::new();
    let mut sound = Connection::new();
    broken.receive(b"{\"method\":\"add\",\"params\":[1,2]}\n");
    let error = broken.fail();
    assert_eq!(error, Error::of_kind(ErrorKind::RemoteDisconnect));
    assert!(!broken.is_open());
    assert_eq!(broken.respond(&mut server), None);
    sound.receive(b"{\"method\":\"add\",\"params\":[1,2]}\n");
    assert_eq!(
        sound.respond(&mut server),
        Some("{\"result\":3,\"error\":null}\n".to_string())
    );
    assert!(server.is_listening());
}

#[test]
fn a_line_holds_one_newline_at_its_end() {
    assert!(has_no_newline(""));
    assert!(has_no_newline("{\"a\":1}"));
    assert!(!has_no_newline("\n"));
    assert!(!has_no_newline("{\"a\":\n1}"));
    assert!(!has_no_newline("{\"a\":1}\n"));
    assert_eq!(to_line(&Value::from("two\nrows")), Some("\"two\\nrows\"\n".to_string()));
    assert_eq!(to_line(&Value::Null), Some("null\n".to_string()));
    let line = Response::success(Value::from("a\nb\r\nc")).to_line().unwrap();
    assert_eq!(line, "{\"result\":\"a\\nb\\r\\nc\",\"error\":null}\n");
}
