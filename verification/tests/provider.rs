use job_agent::provider::{
    accept_start_task, chat_failure_message, prepare_chat_call, reply_status_ok,
    select_service_provider, ApiError, ServiceProvider, StartTaskRequest,
};

fn provider(id: i64, name: &str, model: &str, url: &str, key: &str) -> ServiceProvider {
    ServiceProvider {
        id,
        provider_name: name.to_string(),
        model_name: model.to_string(),
        api_url: url.to_string(),
        api_key: key.to_string(),
    }
}

fn sample() -> Vec<ServiceProvider> {
    vec![
        provider(1, "OpenAI", "gpt-4o-mini", "https://api.openai.com/v1", "k1"),
        provider(2, "SiliconFlow", "Qwen", "https://api.siliconflow.cn", "k2"),
        provider(3, "siliconflow", "Other", "https://x", "k3"),
        provider(4, "blankkey", "m", "https://y", "   "),
        provider(5, "blankmodel", " \t", "https://z", "k5"),
    ]
}

#[test]
fn selection_ignores_ascii_case_and_takes_first_match() {
    let found = select_service_provider(sample(), "SILICONFLOW").unwrap();
    assert_eq!(found.id, 2);
    let found = select_service_provider(sample(), "openai").unwrap();
    assert_eq!(found.id, 1);
}

#[test]
fn selection_reports_missing_provider() {
    match select_service_provider(sample(), "anthropic") {
        Err(ApiError::ServiceProviderNotFound(n)) => assert_eq!(n, "anthropic"),
        other => panic!("unexpected {:?}", other),
    }
    assert!(select_service_provider(Vec::new(), "x").is_err());
}

#[test]
fn error_messages() {
    assert_eq!(
        ApiError::ServiceProviderNotFound("x".to_string()).message(),
        "service provider not found: x"
    );
    assert_eq!(ApiError::EmptyApiKey("p".to_string()).message(), "service api_key is empty: p");
    assert_eq!(
        ApiError::EmptyModelName("p".to_string()).message(),
        "service model_name is empty: p"
    );
}

#[test]
fn chat_call_targets_provider_endpoint() {
    let t = prepare_chat_call(sample(), "siliconflow").unwrap();
    assert_eq!(t.endpoint, "https://api.siliconflow.cn/v1/chat/completions");
    assert_eq!(t.api_key, "k2");
    assert_eq!(t.model, "Qwen");
}

#[test]
fn chat_call_refuses_blank_key_then_blank_model() {
    match prepare_chat_call(sample(), "BlankKey") {
        Err(ApiError::EmptyApiKey(n)) => assert_eq!(n, "blankkey"),
        other => panic!("unexpected {:?}", other),
    }
    match prepare_chat_call(sample(), "blankmodel") {
        Err(ApiError::EmptyModelName(n)) => assert_eq!(n, "blankmodel"),
        other => panic!("unexpected {:?}", other),
    }
    match prepare_chat_call(sample(), "nobody") {
        Err(ApiError::ServiceProviderNotFound(n)) => assert_eq!(n, "nobody"),
        other => panic!("unexpected {:?}", other),
    }
}

#[test]
fn task_requests_are_trimmed_or_refused() {
    let ok = accept_start_task(&StartTaskRequest { requirement: "  find jobs \n".to_string() }).unwrap();
    assert!(ok.accepted);
    assert_eq!(ok.requirement, "find jobs");
    assert!(accept_start_task(&StartTaskRequest { requirement: " \t ".to_string() }).is_none());
}

#[test]
fn reply_status_success_range() {
    assert!(!reply_status_ok(199));
    assert!(reply_status_ok(200));
    assert!(reply_status_ok(204));
    assert!(reply_status_ok(299));
    assert!(!reply_status_ok(300));
    assert!(!reply_status_ok(404));
    assert!(!reply_status_ok(500));
}

#[test]
fn chat_failure_message_names_status_and_body() {
    assert_eq!(
        chat_failure_message("401 Unauthorized", Some("{\"error\":\"bad key\"}".to_string())),
        "siliconflow call failed: status=401 Unauthorized, body={\"error\":\"bad key\"}"
    );
    assert_eq!(
        chat_failure_message("500 Internal Server Error", None),
        "siliconflow call failed: status=500 Internal Server Error, body=<failed to read body>"
    );
}
