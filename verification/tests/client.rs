use gradewise_backend::client::{
    build_request, interpret_i64_response, interpret_response, interpret_unit_response,
    status_is_success, DurableClientError, GeneratedClient, RetValue,
};
use gradewise_backend::interface::{counter_interface, ConcurrencyMode, RetType};
use gradewise_backend::wire::ArgValue;

#[test]
fn non_2xx_with_empty_body_is_http_error() {
    let r = interpret_i64_response(500, String::new());
    assert!(matches!(r, Err(DurableClientError::HttpError(500))));
    let r = interpret_i64_response(404, String::new());
    assert!(matches!(r, Err(DurableClientError::HttpError(404))));
}

#[test]
fn non_2xx_with_body_is_service_error_verbatim() {
    let r = interpret_i64_response(400, String::from("bad key"));
    assert!(matches!(r, Err(DurableClientError::ServiceError(m)) if m == "bad key"));
    let r = interpret_unit_response(409, String::from("bad key"));
    assert!(matches!(r, Err(DurableClientError::ServiceError(m)) if m == "bad key"));
}

#[test]
fn undecodable_2xx_body_is_serialization_error() {
    let r = interpret_i64_response(200, String::from("not json"));
    assert!(matches!(r, Err(DurableClientError::SerializationError)));
    let r = interpret_i64_response(200, String::new());
    assert!(matches!(r, Err(DurableClientError::SerializationError)));
    let r = interpret_i64_response(200, String::from("1.5"));
    assert!(matches!(r, Err(DurableClientError::SerializationError)));
}

#[test]
fn decodable_2xx_body_returns_the_value() {
    assert!(matches!(interpret_i64_response(200, String::from("7")), Ok(7)));
    assert!(matches!(interpret_i64_response(201, String::from("-12")), Ok(-12)));
}

#[test]
fn unit_response_ignores_the_body() {
    assert!(matches!(interpret_unit_response(200, String::new()), Ok(())));
    assert!(matches!(interpret_unit_response(204, String::from("anything")), Ok(())));
    assert!(matches!(
        interpret_unit_response(503, String::new()),
        Err(DurableClientError::HttpError(503))
    ));
}

#[test]
fn interpret_dispatches_on_return_type() {
    let r = interpret_response(RetType::I64, 200, String::from("42"));
    assert!(matches!(r, Ok(RetValue::Int(42))));
    let r = interpret_response(RetType::Unit, 200, String::new());
    assert!(matches!(r, Ok(RetValue::Unit)));
    let r = interpret_response(RetType::I64, 500, String::new());
    assert!(matches!(r, Err(DurableClientError::HttpError(500))));
}

#[test]
fn success_is_exactly_the_2xx_range() {
    assert!(status_is_success(200));
    assert!(status_is_success(299));
    assert!(!status_is_success(300));
    assert!(!status_is_success(199));
}

#[test]
fn transport_error_is_its_own_kind() {
    let e: Result<i64, DurableClientError> = Err(DurableClientError::TransportError);
    assert!(matches!(e, Err(DurableClientError::TransportError)));
}

#[test]
fn request_for_method_without_params_has_no_body() {
    let iface = counter_interface();
    let args: Vec<ArgValue> = Vec::new();
    let w = build_request(&iface, &String::from("increment"), "http://h", "default", &args)
        .expect("increment should build");
    assert_eq!(w.path, "http://h/CounterService/default/increment");
    assert_eq!(w.body, None);
}

#[test]
fn request_for_add_carries_the_json_payload() {
    let iface = counter_interface();
    let args = vec![ArgValue::Int(10)];
    let w = build_request(&iface, &String::from("add"), "http://h", "default", &args)
        .expect("add should build");
    assert_eq!(w.path, "http://h/CounterService/default/add");
    assert_eq!(w.body.as_deref(), Some("{\"value\":10}"));
}

#[test]
fn request_for_unknown_method_or_bad_args_is_refused() {
    let iface = counter_interface();
    let no_args: Vec<ArgValue> = Vec::new();
    assert!(build_request(&iface, &String::from("multiply"), "http://h", "default", &no_args)
        .is_none());
    assert!(build_request(&iface, &String::from("add"), "http://h", "default", &no_args).is_none());
    let str_arg = vec![ArgValue::Str(String::from("10"))];
    assert!(build_request(&iface, &String::from("add"), "http://h", "default", &str_arg).is_none());
    let extra = vec![ArgValue::Int(1)];
    assert!(build_request(&iface, &String::from("increment"), "http://h", "default", &extra)
        .is_none());
}

#[test]
fn generated_client_addresses_its_configured_key() {
    let client = GeneratedClient::new(
        counter_interface(),
        String::from("http://restate:8080"),
        String::from("tenant-7"),
    );
    let args: Vec<ArgValue> = Vec::new();
    let w = client.request(&String::from("get_count"), &args).expect("get_count should build");
    assert_eq!(w.path, "http://restate:8080/CounterService/tenant-7/get_count");
    assert_eq!(w.body, None);
}

#[test]
fn counter_schema_modes_match_the_service() {
    let iface = counter_interface();
    assert_eq!(iface.name, "CounterService");
    assert_eq!(iface.methods.len(), 5);
    let shared: Vec<&str> = iface
        .methods
        .iter()
        .filter(|m| m.mode == ConcurrencyMode::Shared)
        .map(|m| m.name.as_str())
        .collect();
    assert_eq!(shared, vec!["get_count"]);
    let add = iface.find_method(&String::from("add")).expect("add is declared");
    assert_eq!(add.params.len(), 1);
    assert_eq!(add.params[0].name, "value");
    assert!(iface.find_method(&String::from("divide")).is_none());
}
