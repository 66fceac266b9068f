use weaver::engine::{build_request_plan, BodyPlan, PartPlan, SendAction};
use weaver::request::{FormParamType, Http, Lifecycle, Method, ParamType, Response};

fn sample_request() -> Http {
    let mut http = Http::default();
    http.url = "http://example.com/".to_string();
    http
}

#[test]
fn plan_json_body_and_content_type_override() {
    let mut http = sample_request();
    http.param_type = ParamType::Json;
    http.text_param = "{\"a\":1}".to_string();
    http.header
        .push(("Content-Type".to_string(), "text/plain".to_string()));
    let plan = build_request_plan(&http);
    assert_eq!(plan.method, Method::Get);
    assert_eq!(plan.url, "http://example.com/");
    // The forced content type comes after, and thereby overrides, the
    // user's own header.
    assert_eq!(
        plan.headers,
        vec![
            ("Content-Type".to_string(), "text/plain".to_string()),
            ("Content-Type".to_string(), "application/json".to_string()),
        ]
    );
    match plan.body {
        BodyPlan::Text(t) => assert_eq!(t, "{\"a\":1}"),
        _ => panic!("json body must be the text parameter"),
    }
}

#[test]
fn plan_other_body_forces_no_content_type() {
    let mut http = sample_request();
    http.param_type = ParamType::Other;
    http.header.push(("X-A".to_string(), "1".to_string()));
    let plan = build_request_plan(&http);
    assert_eq!(plan.headers, vec![("X-A".to_string(), "1".to_string())]);
}

#[test]
fn plan_multipart_parts() {
    let mut http = sample_request();
    http.param_type = ParamType::FormData;
    http.form_param = vec![
        ("a".to_string(), "v".to_string(), None, FormParamType::Text),
        (
            "f".to_string(),
            "".to_string(),
            Some("report.pdf".to_string()),
            FormParamType::File,
        ),
        ("g".to_string(), "".to_string(), None, FormParamType::File),
    ];
    let plan = build_request_plan(&http);
    assert_eq!(
        plan.headers.last(),
        Some(&(
            "Content-Type".to_string(),
            "multipart/form-data".to_string()
        ))
    );
    match plan.body {
        BodyPlan::Multipart(parts) => {
            assert_eq!(parts.len(), 2);
            match &parts[0] {
                PartPlan::TextPart { name, value } => {
                    assert_eq!(name, "a");
                    assert_eq!(value, "v");
                }
                _ => panic!("first part must be the text field"),
            }
            match &parts[1] {
                PartPlan::FilePart { name, path } => {
                    assert_eq!(name, "f");
                    assert_eq!(path, "report.pdf");
                }
                _ => panic!("second part must be the file field"),
            }
        }
        _ => panic!("form data must plan a multipart body"),
    }
}

#[test]
fn plan_query_pairs() {
    let mut http = sample_request();
    http.param_type = ParamType::Query;
    http.form_param = vec![
        ("a".to_string(), "1".to_string(), None, FormParamType::Text),
        ("b".to_string(), "2".to_string(), None, FormParamType::Text),
    ];
    let plan = build_request_plan(&http);
    assert!(plan.headers.is_empty());
    match plan.body {
        BodyPlan::QueryParams(pairs) => assert_eq!(
            pairs,
            vec![
                ("a".to_string(), "1".to_string()),
                ("b".to_string(), "2".to_string()),
            ]
        ),
        _ => panic!("query kind must plan query parameters"),
    }
}

#[test]
fn plan_none_has_no_body() {
    let mut http = sample_request();
    http.param_type = ParamType::NoBody;
    let plan = build_request_plan(&http);
    assert!(matches!(plan.body, BodyPlan::NoBody));
}

#[test]
fn send_dispatches_from_idle() {
    let mut http = sample_request();
    match http.send() {
        SendAction::Dispatch { call_id, plan } => {
            assert_eq!(call_id, 0);
            assert_eq!(plan.url, "http://example.com/");
        }
        _ => panic!("an idle request with a valid URL must dispatch"),
    }
    assert!(matches!(http.lifecycle, Lifecycle::Pending { call_id: 0 }));
}

#[test]
fn send_is_a_no_op_while_pending() {
    let mut http = sample_request();
    assert!(matches!(http.send(), SendAction::Dispatch { .. }));
    assert!(matches!(http.send(), SendAction::AlreadyPending));
    assert!(matches!(http.lifecycle, Lifecycle::Pending { call_id: 0 }));
}

#[test]
fn send_after_completed_acknowledges_and_redispatches() {
    let mut http = sample_request();
    assert!(matches!(http.send(), SendAction::Dispatch { call_id: 0, .. }));
    http.complete(
        0,
        Ok(Response {
            code: 200,
            size: Some(2),
            body: "ok".to_string(),
        }),
    );
    assert!(matches!(http.lifecycle, Lifecycle::Completed { .. }));
    // The next send goes through idle: the old outcome is discarded and a
    // fresh call is pending.
    assert!(matches!(http.send(), SendAction::Dispatch { call_id: 1, .. }));
    assert!(matches!(http.lifecycle, Lifecycle::Pending { call_id: 1 }));
}

#[test]
fn send_with_invalid_url_completes_with_the_parse_error() {
    let mut http = Http::default();
    http.url = "not a url".to_string();
    assert!(matches!(http.send(), SendAction::Rejected));
    let expected = url::Url::parse("not a url").unwrap_err().to_string();
    match &http.lifecycle {
        Lifecycle::Completed { outcome: Err(m) } => assert_eq!(m, &expected),
        _ => panic!("an unparsable URL must complete with its parse error"),
    }
}

#[test]
fn completion_lands_only_on_the_matching_call() {
    let mut http = sample_request();
    assert!(matches!(http.send(), SendAction::Dispatch { call_id: 0, .. }));
    http.complete(
        7,
        Ok(Response {
            code: 200,
            size: None,
            body: String::new(),
        }),
    );
    assert!(matches!(http.lifecycle, Lifecycle::Pending { call_id: 0 }));
    http.complete(0, Err("connection refused".to_string()));
    match &http.lifecycle {
        Lifecycle::Completed { outcome: Err(m) } => assert_eq!(m, "connection refused"),
        _ => panic!("the matching call must complete the request"),
    }
}

#[test]
fn cancelled_call_resolves_into_nothing() {
    let mut http = sample_request();
    let call_id = match http.send() {
        SendAction::Dispatch { call_id, .. } => call_id,
        _ => panic!("dispatch expected"),
    };
    http.cancel();
    assert!(matches!(http.lifecycle, Lifecycle::Idle));
    // The worker finishes later; its outcome must not write the result slot
    // of the now idle request.
    http.complete(
        call_id,
        Ok(Response {
            code: 200,
            size: None,
            body: "late".to_string(),
        }),
    );
    assert!(matches!(http.lifecycle, Lifecycle::Idle));
}

#[test]
fn cancel_outside_pending_changes_nothing() {
    let mut http = sample_request();
    http.cancel();
    assert!(matches!(http.lifecycle, Lifecycle::Idle));
}

#[test]
fn dismissing_a_result_returns_to_idle() {
    let mut http = sample_request();
    assert!(matches!(http.send(), SendAction::Dispatch { .. }));
    http.complete(
        0,
        Ok(Response {
            code: 404,
            size: Some(0),
            body: String::new(),
        }),
    );
    http.dismiss_result();
    assert!(matches!(http.lifecycle, Lifecycle::Idle));
}
