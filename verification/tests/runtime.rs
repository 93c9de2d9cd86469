use tdlib_rs::client::{create_client, CorrelationContext, RouteOutcome};
use tdlib_rs::response::{decode_unit_response, decode_value_response, TdError};

fn fields(pairs: &[(&str, &str)]) -> Vec<(String, String)> {
    pairs.iter().map(|(k, v)| (k.to_string(), v.to_string())).collect()
}

#[test]
fn dispatch_builds_exact_wire_text() {
    let mut ctx = CorrelationContext::new();
    let (id, text) = ctx.dispatch("ping", &fields(&[]));
    assert_eq!(id, 0);
    assert_eq!(text, "{\"@type\":\"ping\",\"@extra\":0}");
    let (id2, text2) = ctx.dispatch("getChat", &fields(&[("chat_id", "123")]));
    assert_eq!(id2, 1);
    assert_eq!(text2, "{\"@type\":\"getChat\",\"chat_id\":123,\"@extra\":1}");
}

#[test]
fn correlation_ids_pairwise_distinct() {
    let mut ctx = CorrelationContext::new();
    let mut ids = Vec::new();
    for _ in 0..16 {
        let (id, _) = ctx.dispatch("ping", &fields(&[]));
        ids.push(id);
    }
    for i in 0..ids.len() {
        for j in 0..ids.len() {
            if i != j {
                assert_ne!(ids[i], ids[j]);
            }
        }
    }
}

#[test]
fn response_delivered_to_exactly_one_waiter() {
    let mut ctx = CorrelationContext::new();
    let (a, _) = ctx.dispatch("ping", &fields(&[]));
    let (b, _) = ctx.dispatch("ping", &fields(&[]));
    let reply = format!("{{\"@extra\":{b},\"ok\":true}}");
    match ctx.route(reply.clone()) {
        RouteOutcome::Delivered(id) => assert_eq!(id, b),
        _ => panic!("expected delivery"),
    }
    assert_eq!(ctx.take_response(a), None);
    assert_eq!(ctx.take_response(b), Some(reply));
    // Consumed: a second collection finds nothing.
    assert_eq!(ctx.take_response(b), None);
}

#[test]
fn orphan_response_is_dropped_not_an_error() {
    let mut ctx = CorrelationContext::new();
    match ctx.route("{\"@extra\":99}".to_string()) {
        RouteOutcome::Orphan(id) => assert_eq!(id, 99),
        _ => panic!("expected orphan"),
    }
    // Later processing is unaffected.
    let (id, _) = ctx.dispatch("ping", &fields(&[]));
    let reply = format!("{{\"@extra\":{id}}}");
    assert!(matches!(ctx.route(reply), RouteOutcome::Delivered(_)));
    assert!(ctx.take_response(id).is_some());
}

#[test]
fn uncorrelated_message_routes_as_event() {
    let mut ctx = CorrelationContext::new();
    let text = "{\"@client_id\":5,\"@type\":\"updateOption\"}".to_string();
    match ctx.route(text.clone()) {
        RouteOutcome::Event(client_id, t) => {
            assert_eq!(client_id, 5);
            assert_eq!(t, text);
        },
        _ => panic!("expected event"),
    }
}

#[test]
fn message_with_neither_key_is_discarded() {
    let mut ctx = CorrelationContext::new();
    match ctx.route("{\"noise\":1}".to_string()) {
        RouteOutcome::Discarded(t) => assert_eq!(t, "{\"noise\":1}"),
        _ => panic!("expected discard"),
    }
    match ctx.route("not json at all".to_string()) {
        RouteOutcome::Discarded(_) => {},
        _ => panic!("expected discard"),
    }
}

#[test]
fn pump_yields_nothing_on_empty_poll() {
    let mut ctx = CorrelationContext::new();
    assert!(ctx.pump(None).is_none());
    assert!(ctx.pump(Some("{\"@extra\":3}".to_string())).is_some());
}

#[test]
fn client_ids_are_sequential() {
    let mut ctx = CorrelationContext::new();
    assert_eq!(create_client(&mut ctx), 1);
    assert_eq!(create_client(&mut ctx), 2);
}

#[test]
fn scenario_b_unit_operation_plain_reply_succeeds() {
    let r = decode_unit_response("{\"@extra\": 7}");
    assert!(r.is_ok());
}

#[test]
fn scenario_c_unit_operation_error_reply_fails_with_api_error() {
    let r = decode_unit_response("{\"@extra\": 7, \"code\": 429, \"message\": \"Too Many Requests\"}");
    match r {
        Err(e) => {
            assert_eq!(e.code(), 429);
            match e {
                TdError::Api { code, message } => {
                    assert_eq!(code, 429);
                    assert_eq!(message, "Too Many Requests");
                },
                _ => panic!("expected api error"),
            }
        },
        Ok(()) => panic!("expected an error"),
    }
}

#[test]
fn scenario_d_deserialization_error_carries_payload_verbatim() {
    let response = "{\"unexpected\": [1, 2]}".to_string();
    let attempt: Result<i32, String> =
        serde_json::from_str::<i32>(&response).map_err(|e| e.to_string());
    let decode_failure = attempt.as_ref().unwrap_err().clone();
    let r = decode_value_response("Chat", response.clone(), attempt);
    match r {
        Err(TdError::Deserialization { expected_type, payload, error }) => {
            assert_eq!(expected_type, "Chat");
            assert_eq!(payload, response);
            assert_eq!(error, decode_failure);
        },
        _ => panic!("expected a deserialization error"),
    }
}

#[test]
fn deserialization_error_code_is_sentinel() {
    let r = decode_value_response::<i32>("Chat", "nonsense".to_string(), Err("bad".to_string()));
    assert_eq!(r.unwrap_err().code(), -1);
}

#[test]
fn decode_ordering_unit_ignores_non_error_payload() {
    // Neither unit-relevant data nor an API error: still success.
    let r = decode_unit_response("{\"message\": \"no code here\"}");
    assert!(r.is_ok());
    let r2 = decode_unit_response("broken json");
    assert!(r2.is_ok());
}

#[test]
fn decode_ordering_success_wins_over_error_shape() {
    // The payload satisfies the error shape, but the success decode already
    // worked, so the operation succeeds.
    let response = "{\"code\": 400, \"message\": \"looks like an error\"}".to_string();
    let attempt: Result<i32, String> = Ok(42);
    let r = decode_value_response("Count", response, attempt);
    assert_eq!(r.unwrap(), 42);
}

#[test]
fn decode_failure_falls_back_to_api_error() {
    let response = "{\"code\": 404, \"message\": \"Not Found\"}".to_string();
    let r = decode_value_response::<i32>("Chat", response, Err("type mismatch".to_string()));
    match r {
        Err(TdError::Api { code, message }) => {
            assert_eq!(code, 404);
            assert_eq!(message, "Not Found");
        },
        _ => panic!("expected api error"),
    }
}

#[test]
fn describe_names_the_failure() {
    let api = TdError::Api { code: 400, message: "bad".to_string() };
    assert_eq!(api.describe(), "engine error: bad");
    let de = TdError::Deserialization {
        expected_type: "Chat".to_string(),
        payload: "{}".to_string(),
        error: "eof".to_string(),
    };
    assert_eq!(de.describe(), "failed to deserialize Chat");
}
