use scalar::abci::{
    acknowledge, dispatch, grpc_listen_address, on_stream_error, route, transaction_response, tss_address, AbciMessage,
    AbciMethod, ScalarAbciRequest, StreamAction, StreamErrorKind, UNIMPLEMENTED_GRPC_STATUS,
};
use scalar::blockchain::FirehoseCursor;
use scalar::data::Word;
use scalar::env::EnvVars;
use scalar::relayer::{relayer_instances, Args, RelayerConfig, NAMESPACE};

#[test]
fn an_empty_cursor_is_no_cursor() {
    assert!(FirehoseCursor::from(String::new()).is_none());
    assert!(FirehoseCursor::from(None::<String>).is_none());
    assert!(FirehoseCursor::none().is_none());
    let c = FirehoseCursor::from("abc".to_string());
    assert!(!c.is_none());
    assert_eq!(c.to_string(), "abc");
    assert_eq!(FirehoseCursor::from(Some("x".to_string())).as_ref(), &Some("x".to_string()));
    assert_eq!(FirehoseCursor::none().to_string(), "");
}

#[test]
fn words_hold_their_text() {
    let w = Word::from_str("transfer");
    assert_eq!(w.as_str(), "transfer");
    assert!(w.eq_str("transfer"));
    assert!(!w.eq_str("Transfer"));
    let w2 = Word::from("id".to_string());
    assert_eq!(w2.to_string(), "id");
    let s: String = w2.into();
    assert_eq!(s, "id");
}

#[test]
fn log_time_format_has_a_default() {
    let e = EnvVars::from_values(None, None);
    assert_eq!(e.log_time_format, "%b %d %H:%M:%S%.3f");
    assert_eq!(e.log_levels, None);
    let f = EnvVars::from_values(Some("%H".to_string()), Some("debug".to_string()));
    assert_eq!(f.log_time_format, "%H");
    assert_eq!(f.log_levels, Some("debug".to_string()));
    assert_eq!(f.debug_text(), "env vars");
}

#[test]
fn settings_are_read_by_their_variable_names() {
    let e = EnvVars::from_lookup(|name: &'static str| match name {
        "SCALAR_LOG_TIME_FORMAT" => Some("%T".to_string()),
        "SCALAR_LOG" => Some("info".to_string()),
        _ => None,
    });
    assert_eq!(e.log_time_format, "%T");
    assert_eq!(e.log_levels, Some("info".to_string()));
    let d = EnvVars::from_lookup(|_name: &'static str| None);
    assert_eq!(d.log_time_format, "%b %d %H:%M:%S%.3f");
    assert_eq!(d.log_levels, None);
}

#[test]
fn settings_from_the_environment_load() {
    assert!(EnvVars::from_env().is_ok());
}

#[test]
fn each_relayer_instance_has_its_file_and_port() {
    let args = Args { config: "/etc/relayer".to_string(), grpc_host: "localhost".to_string(), grpc_port: 9000, instance: 3 };
    let r = relayer_instances(&args);
    assert_eq!(r.len(), 3);
    assert_eq!(r[0].config_path, "/etc/relayer/evm_relayer0.toml");
    assert_eq!(r[2].config_path, "/etc/relayer/evm_relayer2.toml");
    assert_eq!(r[0].grpc_addr, "localhost:9000");
    assert_eq!(r[2].grpc_addr, "localhost:9002");
    let none = relayer_instances(&Args { instance: 0, ..args });
    assert!(none.is_empty());
    assert_eq!(NAMESPACE, "scalar");
}

#[test]
fn only_bridged_relayers_subscribe() {
    let mut c = RelayerConfig {
        name: Some("eth".to_string()),
        rpc_addr: None,
        ws_addr: Some("ws://node".to_string()),
        start_with_bridge: Some(true),
    };
    assert_eq!(c.bridge_endpoint(), Some(&"ws://node".to_string()));
    c.start_with_bridge = Some(false);
    assert_eq!(c.bridge_endpoint(), None);
    c.start_with_bridge = None;
    assert_eq!(c.bridge_endpoint(), None);
    c.start_with_bridge = Some(true);
    c.ws_addr = None;
    assert_eq!(c.bridge_endpoint(), None);
}

#[test]
fn calls_are_routed_by_path() {
    assert!(matches!(route("/abci.ScalarAbci/UnaryScalarAbci"), Some(AbciMethod::Unary)));
    assert!(matches!(route("/abci.ScalarAbci/ServerStreamingScalarAbci"), Some(AbciMethod::ServerStreaming)));
    assert!(matches!(route("/abci.ScalarAbci/ClientStreamingScalarAbci"), Some(AbciMethod::ClientStreaming)));
    assert!(matches!(
        route("/abci.ScalarAbci/BidirectionalStreamingScalarAbci"),
        Some(AbciMethod::BidirectionalStreaming)
    ));
    assert!(route("/abci.ScalarAbci/Other").is_none());
    assert_eq!(UNIMPLEMENTED_GRPC_STATUS, "12");
}

#[test]
fn requests_are_acknowledged_with_their_payload() {
    let a = acknowledge(ScalarAbciRequest { payload: "{\"h\":1}".to_string() });
    assert_eq!(a.external_message, b"{\"h\":1}".to_vec());
    assert_eq!(a.forward.payload, "{\"h\":1}");
    assert!(matches!(a.reply.message, Some(AbciMessage::Ark(ref ark)) if ark.payload == "{\"h\":1}"));
    let t = transaction_response("[]".to_string());
    assert!(matches!(t.message, Some(AbciMessage::Tran(ref x)) if x.message == "[]"));
}

#[test]
fn service_addresses_follow_the_settings() {
    assert_eq!(grpc_listen_address(None, None, 2), "0.0.0.0:50052");
    assert_eq!(grpc_listen_address(Some("10.0.0.1".to_string()), Some("6000".to_string()), 1), "10.0.0.1:6001");
    assert_eq!(grpc_listen_address(None, Some("port".to_string()), 0), "0.0.0.0:50050");
    assert_eq!(tss_address(None, None, 3), "http://127.0.0.1:50013");
    assert_eq!(tss_address(Some("tofnd".to_string()), Some("7000".to_string()), 3), "http://tofnd:7000");
    assert_eq!(tss_address(None, Some("70000".to_string()), 1), "http://127.0.0.1:50011");
}

#[test]
fn unknown_methods_get_the_unimplemented_answer() {
    assert!(matches!(dispatch("/abci.ScalarAbci/UnaryScalarAbci"), Ok(AbciMethod::Unary)));
    match dispatch("/abci.ScalarAbci/Nothing") {
        Err(reply) => {
            assert_eq!(reply.http_status, 200);
            assert_eq!(reply.grpc_status, "12");
            assert_eq!(reply.content_type, "application/grpc");
            assert!(reply.body.is_empty());
        },
        Ok(_) => panic!("expected the unimplemented answer"),
    }
}

#[test]
fn a_broken_pipe_ends_the_stream_and_other_errors_are_passed_on() {
    assert_eq!(on_stream_error(StreamErrorKind::BrokenPipe), StreamAction::Stop);
    assert_eq!(on_stream_error(StreamErrorKind::Other), StreamAction::ForwardError);
}
