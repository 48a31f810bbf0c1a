use fmp_polling::json::JsonValue;
use fmp_polling::logging::LogLevel;
use fmp_polling::polling::Poll;
use fmp_polling::websocket::{
    on_message, return_error, return_success, CallRequest, ConnectionStep, IncomingMessage,
    MakeResponse, Outcome, PollTarget, Reply, TaskArgs, TaskFunction,
};

fn task(function: TaskFunction, params: Option<JsonValue>, where_: &str) -> CallRequest {
    CallRequest {
        target: "task".to_string(),
        for_task: Some(TaskArgs { function, params, where_: where_.to_string() }),
    }
}

fn built() -> MakeResponse {
    let mut m = MakeResponse::new();
    m.build();
    m
}

#[test]
fn registry_knows_every_poller() {
    let m = built();
    assert_eq!(m.map_func("stock_polling"), Some(PollTarget::Stock));
    assert_eq!(m.map_func("technical_indicators_polling"), Some(PollTarget::TechnicalIndicators));
    assert_eq!(m.map_func("search_unpinned"), Some(PollTarget::Search));
    assert_eq!(m.map_func("search"), None);
    assert_eq!(MakeResponse::new().map_func("stock_polling"), None);
}

#[test]
fn registering_again_replaces() {
    let mut m = built();
    m.register_function("stock_polling".to_string(), PollTarget::Forex);
    assert_eq!(m.map_func("stock_polling"), Some(PollTarget::Forex));
    assert_eq!(m.map_func("forex_polling"), Some(PollTarget::Forex));
}

#[test]
fn requests_are_dispatched() {
    let m = built();
    match m.make(Ok(task(TaskFunction::AggregatedPolling, Some(JsonValue::Bool(true)), "forex_polling"))) {
        Reply::Run { target, params } => {
            assert_eq!(target, PollTarget::Forex);
            assert!(matches!(params, JsonValue::Bool(true)));
        },
        other => panic!("{:?}", other),
    }
}

fn error_of(r: Reply) -> (u32, String) {
    match r {
        Reply::Respond(resp) => {
            assert!(resp.message.is_none());
            (resp.status, resp.reason.unwrap())
        },
        other => panic!("{:?}", other),
    }
}

#[test]
fn refused_requests_are_answered() {
    let m = built();
    assert_eq!(error_of(m.make(Err("bad json".to_string()))), (400, "bad json".to_string()));
    assert_eq!(
        error_of(m.make(Ok(task(TaskFunction::AggregatedPolling, Some(JsonValue::Null), "nope")))),
        (400, "Invalid task function: nope".to_string())
    );
    assert_eq!(
        error_of(m.make(Ok(task(TaskFunction::AggregatedPolling, None, "stock_polling")))),
        (400, "Invalid task arguments".to_string())
    );
    assert_eq!(
        error_of(m.make(Ok(task(TaskFunction::Other, Some(JsonValue::Null), "stock_polling")))),
        (500, "Invalid request".to_string())
    );
    let other = CallRequest { target: "query".to_string(), for_task: None };
    assert_eq!(error_of(m.make(Ok(other))), (500, "Invalid request".to_string()));
}

#[test]
fn unchecked_requests() {
    let m = built();
    match m.unsafe_make(CallRequest { target: "ping".to_string(), for_task: None }) {
        Reply::Respond(resp) => {
            assert_eq!(resp.status, 200);
            assert!(resp.message.is_none() && resp.reason.is_none());
        },
        other => panic!("{:?}", other),
    }
    assert!(matches!(
        m.unsafe_make(task(TaskFunction::AggregatedPolling, Some(JsonValue::Null), "market_data_polling")),
        Reply::Run { target: PollTarget::MarketData, .. }
    ));
}

#[test]
fn outcome_statuses() {
    let cases = [
        (Outcome::Failure, 400),
        (Outcome::NotAllowed, 500),
        (Outcome::Timeout, 408),
        (Outcome::Canceled, 499),
        (Outcome::InternalError, 503),
        (Outcome::NotFound, 404),
        (Outcome::RateLimited, 429),
    ];
    for (o, s) in cases {
        let r = return_error(o, "why".to_string());
        assert_eq!(r.status, s);
        assert_eq!(r.reason.as_deref(), Some("why"));
    }
    let ok = return_success(JsonValue::Null);
    assert_eq!(ok.status, 200);
    assert!(ok.reason.is_none());
}

#[test]
fn connection_steps() {
    assert!(matches!(on_message(IncomingMessage::Text("{\"a\": [1, 2]}".to_string())), ConnectionStep::Answer(t) if t == "{\"a\": [1, 2]}"));
    assert!(matches!(on_message(IncomingMessage::Text("{oops".to_string())), ConnectionStep::Send(t) if t == "Invalid JSON"));
    assert!(matches!(on_message(IncomingMessage::Close), ConnectionStep::Stop));
    assert!(matches!(on_message(IncomingMessage::Failed), ConnectionStep::Stop));
    assert!(matches!(on_message(IncomingMessage::Other), ConnectionStep::Skip));
}

#[test]
fn log_level_names() {
    assert_eq!(LogLevel::from_str("warn"), LogLevel::Warn);
    assert_eq!(LogLevel::from_str("error"), LogLevel::Error);
    assert_eq!(LogLevel::from_str("WARN"), LogLevel::Trace);
    assert_eq!(LogLevel::default(), LogLevel::Trace);
    assert_eq!(Poll::new(), Poll);
}

fn member(k: &str, v: JsonValue) -> (String, JsonValue) {
    (k.to_string(), v)
}

#[test]
fn call_request_fields_are_read() {
    let params = JsonValue::Object(vec![member("tickers", JsonValue::Array(vec![]))]);
    let doc = JsonValue::Object(vec![
        member("target", JsonValue::String("task".to_string())),
        member(
            "args",
            JsonValue::Object(vec![member(
                "for_task",
                JsonValue::Object(vec![
                    member("function", JsonValue::String("AggregatedPolling".to_string())),
                    member("params", params),
                    member(
                        "look_for",
                        JsonValue::Object(vec![member(
                            "where_",
                            JsonValue::String("stock_polling".to_string()),
                        )]),
                    ),
                ]),
            )]),
        ),
    ]);
    let req = fmp_polling::websocket::parse_call_request(doc).unwrap();
    assert_eq!(req.target, "task");
    let t = req.for_task.unwrap();
    assert_eq!(t.function, TaskFunction::AggregatedPolling);
    assert_eq!(t.where_, "stock_polling");
    assert!(matches!(t.params, Some(JsonValue::Object(_))));

    let bare = JsonValue::Object(vec![
        member("target", JsonValue::String("task".to_string())),
        member(
            "args",
            JsonValue::Object(vec![member(
                "for_task",
                JsonValue::Object(vec![
                    member("function", JsonValue::String("Other".to_string())),
                    member("params", JsonValue::Null),
                ]),
            )]),
        ),
    ]);
    let t = fmp_polling::websocket::parse_call_request(bare).unwrap().for_task.unwrap();
    assert_eq!(t.function, TaskFunction::Other);
    assert!(t.params.is_none());
    assert_eq!(t.where_, "");

    let no_target = JsonValue::Object(vec![member("args", JsonValue::Null)]);
    match fmp_polling::websocket::parse_call_request(no_target) {
        Err(m) => assert_eq!(m, "Missing 'target' field"),
        Ok(_) => panic!("a request without target was read"),
    }
    let plain = JsonValue::Object(vec![member("target", JsonValue::String("ping".to_string()))]);
    let req = fmp_polling::websocket::parse_call_request(plain).unwrap();
    assert_eq!(req.target, "ping");
    assert!(req.for_task.is_none());
}
