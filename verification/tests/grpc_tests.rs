use clientserver::grpc::{client_request, MyServer, Req};

#[test]
fn server_answers_val1() {
    let server = MyServer::default();
    let resp = server.get(Req { name: "key1".to_string() });
    assert_eq!(resp.value, "val1");
    let resp = server.get(Req { name: "anything else".to_string() });
    assert_eq!(resp.value, "val1");
}

#[test]
fn client_asks_for_key1() {
    assert_eq!(client_request().name, "key1");
}
