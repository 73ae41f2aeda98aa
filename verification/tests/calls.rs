use shanhai_client::json::Json;
use shanhai_client::rpc::{
    request_envelope, RpcClient, RpcError, RpcErrorBody, RpcResponse,
};

fn list(s: &str) -> Json {
    Json::Array(vec![Json::Text(s.to_string())])
}

fn id_of(body: &Json) -> u64 {
    body.get("id").and_then(|v| v.as_u64()).expect("a number")
}

#[test]
fn request_envelope_is_jsonrpc2() {
    let v = request_envelope(1, "rabbit_getObject", list("0x1234"));
    assert_eq!(v.text_member("jsonrpc").map(|s| s.as_str()), Some("2.0"));
    assert_eq!(v.text_member("method").map(|s| s.as_str()), Some("rabbit_getObject"));
    assert_eq!(v.get("params"), Some(&list("0x1234")));
    assert_eq!(id_of(&v), 1);
}

#[test]
fn remote_error_decides_over_a_result() {
    let response = RpcResponse {
        result: Some(Json::Bool(true)),
        error: Some(RpcErrorBody {
            code: -32001,
            message: "token required".to_string(),
            data: None,
        }),
    };
    let e = response.into_result().expect_err("an error");
    assert_eq!(
        e,
        RpcError::Remote { code: -32001, message: "token required".to_string(), data: None }
    );
    assert_eq!(e.message(), "rpc error code -32001: token required (data: None)");
}

#[test]
fn success_is_the_result() {
    let ok = Json::Object(vec![("ok".to_string(), Json::Bool(true))]);
    let response = RpcResponse { result: Some(ok.copy()), error: None };
    let value = response.into_result().expect("a result");
    assert_eq!(value, ok);
    assert!(value.flag("ok"));
}

#[test]
fn answer_without_result_is_a_bad_one() {
    let e = RpcResponse { result: None, error: None }.into_result().expect_err("an error");
    assert_eq!(e, RpcError::BadResponse("missing result".to_string()));
    assert_eq!(e.message(), "unexpected response: missing result");
}

#[test]
fn error_messages_show_the_extreme_codes() {
    let e = |code: i64| RpcError::Remote { code, message: "m".to_string(), data: None };
    assert_eq!(
        e(i64::MIN).message(),
        "rpc error code -9223372036854775808: m (data: None)"
    );
    assert_eq!(e(i64::MAX).message(), "rpc error code 9223372036854775807: m (data: None)");
    assert_eq!(e(0).message(), "rpc error code 0: m (data: None)");
    assert_eq!(
        RpcError::Transport("refused".to_string()).message(),
        "transport error: refused"
    );
}

#[test]
fn error_message_shows_the_data() {
    let data = Json::Object(vec![
        ("b".to_string(), Json::Fraction("0.5".to_string())),
        ("a".to_string(), Json::Array(vec![Json::Negative(-1), Json::Text("t".to_string())])),
    ]);
    let e = RpcError::Remote { code: 7, message: "m".to_string(), data: Some(data) };
    assert_eq!(
        e.message(),
        "rpc error code 7: m (data: Some(Object {\"a\": Array [Number(-1), String(\"t\")], \"b\": Number(0.5)}))"
    );
}

#[test]
fn present_null_is_a_result() {
    let response = RpcResponse { result: Some(Json::Null), error: None };
    assert_eq!(response.into_result(), Ok(Json::Null));
}

#[test]
fn distant_calls_are_numbered_apart() {
    let mut client = RpcClient::new(String::new(), Some("key".to_string()));
    let first = client.gas_price();
    for _ in 0..1000 {
        client.get_object("0x1");
    }
    let last = client.gas_price();
    assert_eq!((id_of(&first.body), id_of(&last.body)), (1, 1002));
    assert_eq!(first.header, last.header);
}

#[test]
fn calls_are_numbered_from_one() {
    let mut client = RpcClient::new("http://node".to_string(), None);
    let first = client.get_object("0xab");
    let second = client.gas_price();
    assert_eq!(id_of(&first.body), 1);
    assert_eq!(id_of(&second.body), 2);
    assert_eq!(first.url, "http://node");
    assert_eq!(first.header, None);
    assert_eq!(second.body.get("params"), Some(&Json::Array(vec![])));
}

#[test]
fn token_goes_into_the_header() {
    let mut client = RpcClient::new("http://node".to_string(), Some("key".to_string()));
    let post = client.gas_price();
    assert_eq!(post.header, Some(("x-rabbit-token".to_string(), "key".to_string())));
    assert_eq!(post.body.text_member("method").unwrap(), "rabbit_gasPrice");
}

#[test]
fn each_method_has_its_name_and_parameters() {
    let mut client = RpcClient::new(String::new(), None);
    let tx = Json::Object(vec![("a".to_string(), Json::Unsigned(1))]);
    let of_tx = Json::Array(vec![tx.copy()]);
    let posts = vec![
        (client.get_object("0x1"), "rabbit_getObject", list("0x1")),
        (client.get_output("0x2"), "rabbit_getOutput", list("0x2")),
        (client.simulate_compute_tx(&tx), "rabbit_simulateComputeTx", of_tx.copy()),
        (client.submit_compute_tx(&tx), "rabbit_submitComputeTx", of_tx.copy()),
        (client.get_compute_tx_result("0x3"), "rabbit_getComputeTxResult", list("0x3")),
    ];
    for (post, method, params) in posts {
        assert_eq!(post.body.text_member("method").unwrap(), method);
        assert_eq!(post.body.get("params"), Some(&params));
    }
}
