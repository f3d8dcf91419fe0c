use gradewise_backend::greeter::{GreetRequest, GreeterService, GreeterServiceImpl};

#[test]
fn greets_the_request_by_name() {
    let handler = GreeterServiceImpl;
    let request = GreetRequest { name: String::from("Alice") };
    assert_eq!(handler.greet(&request), "Hello, Alice!");
}

#[test]
fn greets_the_empty_name_too() {
    let handler = GreeterServiceImpl;
    let request = GreetRequest { name: String::new() };
    assert_eq!(handler.greet(&request), "Hello, !");
}
