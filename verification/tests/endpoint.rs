use job_agent::endpoint::siliconflow_chat_endpoint;

#[test]
fn endpoint_builder_supports_multiple_base_formats() {
    assert_eq!(
        siliconflow_chat_endpoint("https://api.siliconflow.cn"),
        "https://api.siliconflow.cn/v1/chat/completions"
    );
    assert_eq!(
        siliconflow_chat_endpoint("https://api.siliconflow.cn/v1"),
        "https://api.siliconflow.cn/v1/chat/completions"
    );
    assert_eq!(
        siliconflow_chat_endpoint("https://api.siliconflow.cn/v1/chat/completions"),
        "https://api.siliconflow.cn/v1/chat/completions"
    );
}

#[test]
fn endpoint_adds_path_after_trailing_slash() {
    assert_eq!(
        siliconflow_chat_endpoint("https://api.example.com/"),
        "https://api.example.com/v1/chat/completions"
    );
}

#[test]
fn endpoint_trims_surrounding_whitespace() {
    assert_eq!(
        siliconflow_chat_endpoint("  https://api.example.com/v1 \n"),
        "https://api.example.com/v1/chat/completions"
    );
    assert_eq!(
        siliconflow_chat_endpoint("\thttps://h/chat/completions  "),
        "https://h/chat/completions"
    );
}

#[test]
fn endpoint_of_blank_base_is_bare_path() {
    assert_eq!(siliconflow_chat_endpoint("   "), "/v1/chat/completions");
    assert_eq!(siliconflow_chat_endpoint(""), "/v1/chat/completions");
}

#[test]
fn endpoint_is_idempotent_on_examples() {
    for base in ["https://a.cn", "https://a.cn/", "https://a.cn/v1", " x "] {
        let once = siliconflow_chat_endpoint(base);
        assert_eq!(siliconflow_chat_endpoint(&once), once);
        assert!(once.ends_with("/chat/completions"));
    }
}
