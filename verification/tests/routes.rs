use aio_gateway::decimal::decimal_string;
use aio_gateway::header::provider_id_header_name;
use aio_gateway::paths::{forwarded_path, openai_v1_path};
use aio_gateway::router::{route_table, RouteHandler, RouteMethod};
use aio_gateway::routes::{
    health, proxy_cli_any, proxy_cli_with_provider_any, proxy_openai_v1_any,
    proxy_openai_v1_root, root,
};

#[test]
fn health_reports_status_app_version_and_time() {
    let r = health("1.2.3", 1_725_029_869);
    assert_eq!(r.status, "ok");
    assert_eq!(r.app, "aio-coding-hub");
    assert_eq!(r.version, "1.2.3");
    assert_eq!(r.ts, 1_725_029_869);
}

#[test]
fn root_answers_running_text() {
    assert_eq!(root(), "AIO Coding Hub is running");
}

#[test]
fn forwarded_path_of_empty_capture_is_slash() {
    assert_eq!(forwarded_path(""), "/");
}

#[test]
fn forwarded_path_prefixes_capture_with_slash() {
    assert_eq!(forwarded_path("v1/messages"), "/v1/messages");
    assert_eq!(forwarded_path("a/"), "/a/");
}

#[test]
fn openai_v1_path_of_empty_capture_is_v1() {
    assert_eq!(openai_v1_path(""), "/v1");
}

#[test]
fn openai_v1_path_puts_capture_under_v1() {
    assert_eq!(openai_v1_path("responses"), "/v1/responses");
    assert_eq!(openai_v1_path("chat/completions"), "/v1/chat/completions");
}

#[test]
fn decimal_string_matches_std_formatting() {
    for n in [0i64, 7, 10, 42, -1, -42, 1000, -90210, i64::MAX, i64::MIN] {
        assert_eq!(decimal_string(n), n.to_string());
    }
}

#[test]
fn decimal_string_exact_values() {
    assert_eq!(decimal_string(0), "0");
    assert_eq!(decimal_string(-42), "-42");
    assert_eq!(decimal_string(i64::MIN), "-9223372036854775808");
    assert_eq!(decimal_string(i64::MAX), "9223372036854775807");
}

#[test]
fn provider_id_header_name_is_fixed() {
    assert_eq!(provider_id_header_name(), "x-aio-provider-id");
}

#[test]
fn cli_route_forwards_key_and_path_without_header() {
    let t = proxy_cli_any("gemini".to_string(), "v1/messages".to_string());
    assert_eq!(t.cli_key, "gemini");
    assert_eq!(t.forwarded_path, "/v1/messages");
    assert_eq!(t.provider_id_header, None);
}

#[test]
fn cli_route_with_empty_capture_forwards_root() {
    let t = proxy_cli_any("gemini".to_string(), String::new());
    assert_eq!(t.cli_key, "gemini");
    assert_eq!(t.forwarded_path, "/");
    assert_eq!(t.provider_id_header, None);
}

#[test]
fn provider_route_sets_decimal_provider_header() {
    let t = proxy_cli_with_provider_any("codex".to_string(), 17, "responses".to_string());
    assert_eq!(t.cli_key, "codex");
    assert_eq!(t.forwarded_path, "/responses");
    assert_eq!(t.provider_id_header.as_deref(), Some("17"));
}

#[test]
fn provider_route_header_for_negative_and_extreme_ids() {
    let t = proxy_cli_with_provider_any("gemini".to_string(), -5, String::new());
    assert_eq!(t.forwarded_path, "/");
    assert_eq!(t.provider_id_header.as_deref(), Some("-5"));
    let t = proxy_cli_with_provider_any("gemini".to_string(), i64::MIN, "x".to_string());
    assert_eq!(t.provider_id_header.as_deref(), Some("-9223372036854775808"));
}

#[test]
fn provider_header_text_is_accepted_by_http_header_values() {
    for id in [0i64, 1, -1, 123456789, i64::MAX, i64::MIN] {
        let t = proxy_cli_with_provider_any("codex".to_string(), id, "p".to_string());
        let text = t.provider_id_header.expect("header is always set");
        assert!(axum::http::HeaderValue::from_str(&text).is_ok());
    }
}

#[test]
fn openai_v1_route_goes_to_codex() {
    let t = proxy_openai_v1_any("chat/completions".to_string());
    assert_eq!(t.cli_key, "codex");
    assert_eq!(t.forwarded_path, "/v1/chat/completions");
    assert_eq!(t.provider_id_header, None);
}

#[test]
fn openai_v1_root_goes_to_codex_v1() {
    let t = proxy_openai_v1_root();
    assert_eq!(t.cli_key, "codex");
    assert_eq!(t.forwarded_path, "/v1");
    assert_eq!(t.provider_id_header, None);
}

#[test]
fn law_openai_v1_root_matches_empty_capture_on_values() {
    let a = proxy_openai_v1_root();
    let b = proxy_openai_v1_any(String::new());
    assert_eq!(a.cli_key, b.cli_key);
    assert_eq!(a.forwarded_path, b.forwarded_path);
    assert_eq!(a.provider_id_header, b.provider_id_header);
}

#[test]
fn law_openai_v1_is_codex_cli_route_on_values() {
    for p in ["responses", "chat/completions", "models"] {
        let a = proxy_openai_v1_any(p.to_string());
        let b = proxy_cli_any("codex".to_string(), format!("v1/{p}"));
        assert_eq!(a.cli_key, b.cli_key);
        assert_eq!(a.forwarded_path, b.forwarded_path);
        assert_eq!(a.provider_id_header, b.provider_id_header);
    }
    let a = proxy_openai_v1_any(String::new());
    let b = proxy_cli_any("codex".to_string(), "v1".to_string());
    assert_eq!(a.forwarded_path, b.forwarded_path);
}

#[test]
fn law_provider_route_pins_cli_route_on_values() {
    let a = proxy_cli_with_provider_any("gemini".to_string(), 3, "v1/messages".to_string());
    let b = proxy_cli_any("gemini".to_string(), "v1/messages".to_string());
    assert_eq!(a.cli_key, b.cli_key);
    assert_eq!(a.forwarded_path, b.forwarded_path);
    assert_eq!(a.provider_id_header.as_deref(), Some("3"));
}

#[test]
fn law_provider_header_identifies_provider_on_values() {
    let ids = [0i64, 1, 10, -1, -10, 100, i64::MAX, i64::MIN];
    for &a in &ids {
        for &b in &ids {
            let ha = proxy_cli_with_provider_any("c".to_string(), a, "p".to_string())
                .provider_id_header;
            let hb = proxy_cli_with_provider_any("c".to_string(), b, "p".to_string())
                .provider_id_header;
            assert_eq!(ha == hb, a == b);
        }
    }
}

#[test]
fn law_forwarded_path_keeps_capture_on_values() {
    for p in ["", "a", "v1/messages", "x/y/"] {
        let f = forwarded_path(p);
        assert!(f.starts_with('/'));
        if p.is_empty() {
            assert_eq!(f, "/");
        } else {
            assert_eq!(&f[1..], p);
        }
    }
}

#[test]
fn route_table_lists_routes_in_registration_order() {
    let t = route_table();
    let got: Vec<(&str, RouteMethod, RouteHandler)> =
        t.iter().map(|r| (r.pattern, r.method, r.handler)).collect();
    assert_eq!(
        got,
        vec![
            ("/", RouteMethod::Get, RouteHandler::Root),
            ("/health", RouteMethod::Get, RouteHandler::Health),
            (
                "/:cli_key/_aio/provider/:provider_id/*path",
                RouteMethod::Any,
                RouteHandler::CliWithProvider
            ),
            ("/v1", RouteMethod::Any, RouteHandler::OpenAiV1Root),
            ("/v1/*path", RouteMethod::Any, RouteHandler::OpenAiV1),
            ("/:cli_key/*path", RouteMethod::Any, RouteHandler::Cli),
        ]
    );
}

#[test]
fn law_route_patterns_distinct_on_values() {
    let t = route_table();
    for i in 0..t.len() {
        for j in 0..t.len() {
            if i != j {
                assert_ne!(t[i].pattern, t[j].pattern);
            }
        }
    }
}

#[test]
fn law_each_handler_routed_once_on_values() {
    let t = route_table();
    for h in [
        RouteHandler::Root,
        RouteHandler::Health,
        RouteHandler::CliWithProvider,
        RouteHandler::OpenAiV1Root,
        RouteHandler::OpenAiV1,
        RouteHandler::Cli,
    ] {
        assert_eq!(t.iter().filter(|r| r.handler == h).count(), 1);
    }
}
