use orchestrator::auth::{
    check_address_auth, check_query_token, check_token_auth, extract_bearer_token, is_authorized,
};
use orchestrator::config::{
    ApiConfig, AuthConfig, BuildConfig, Config, EndpointConfig, ProjectConfig, ProjectEntry,
    SslConfig,
};

fn tokens(auth_type: &str) -> AuthConfig {
    AuthConfig {
        auth_type: auth_type.to_string(),
        address_type: "ip".to_string(),
        allowed_addresses: vec!["10.0.0.1".to_string(), "host.example".to_string()],
        allowed_tokens: vec!["good".to_string(), "better".to_string()],
    }
}

#[test]
fn bearer_token_is_extracted_exactly() {
    assert_eq!(extract_bearer_token("Bearer abc"), Some("abc".to_string()));
    assert_eq!(extract_bearer_token("bearer abc"), None);
    assert_eq!(extract_bearer_token("Basic abc"), None);
    assert_eq!(extract_bearer_token("Bearer "), Some("".to_string()));
}

#[test]
fn header_token_decides_when_present() {
    let cfg = tokens("token");
    assert!(check_token_auth(Some("Bearer good"), "", &cfg));
    assert!(!check_token_auth(Some("Bearer bad"), "token=good", &cfg));
    assert!(check_token_auth(None, "token=good", &cfg));
}

#[test]
fn query_token_is_found_among_pairs() {
    let allowed = vec!["good".to_string()];
    assert!(check_query_token("a=1&token=good&b=2", &allowed));
    assert!(check_query_token("token=good", &allowed));
    assert!(!check_query_token("token=bad", &allowed));
    assert!(!check_query_token("tokengood", &allowed));
    assert!(!check_query_token("", &allowed));
    assert!(!check_query_token("t=token=good", &allowed));
    assert!(check_query_token("x&token=good", &allowed));
}

#[test]
fn address_policy_checks_canonical_ip_or_hostname() {
    let cfg = tokens("address");
    assert!(check_address_auth("ignored", Some("10.0.0.1"), &cfg));
    assert!(!check_address_auth("10.0.0.1", None, &cfg));
    let mut host_cfg = tokens("address");
    host_cfg.address_type = "hostname".to_string();
    assert!(check_address_auth("host.example", None, &host_cfg));
    assert!(!check_address_auth("other.example", None, &host_cfg));
    let mut odd = tokens("address");
    odd.address_type = "dns".to_string();
    assert!(!check_address_auth("host.example", Some("10.0.0.1"), &odd));
}

fn endpoint() -> EndpointConfig {
    EndpointConfig {
        endpoint: "/x".to_string(),
        method: "POST".to_string(),
        payload: Vec::new(),
        return_fields: Vec::new(),
        file: Vec::new(),
    }
}

fn config_with_project_auth(project_auth: Option<AuthConfig>) -> Config {
    Config {
        name: "srv".to_string(),
        port: 1,
        base_path: "/".to_string(),
        log_path: "/tmp".to_string(),
        ssl: SslConfig {
            enable_ssl: false,
            certificate_path: String::new(),
            certificate_key_path: String::new(),
        },
        auth: tokens("token"),
        projects: vec![ProjectEntry {
            name: "p".to_string(),
            project: ProjectConfig {
                allow_multi_build: true,
                max_pending_build: 1,
                base_endpoint_path: "/p".to_string(),
                unique_build_key: "job".to_string(),
                api: ApiConfig {
                    build: endpoint(),
                    is_building: endpoint(),
                    abort: endpoint(),
                    cleanup: endpoint(),
                    socket: endpoint(),
                },
                auth: project_auth,
                build: BuildConfig {
                    project_path: ".".to_string(),
                    on_success: String::new(),
                    on_failure: String::new(),
                    on_success_payload: Vec::new(),
                    on_failure_payload: Vec::new(),
                    commands: Vec::new(),
                    run_on_success: Vec::new(),
                    run_on_failure: Vec::new(),
                },
            },
        }],
    }
}

#[test]
fn request_falls_back_to_server_policy() {
    let config = config_with_project_auth(None);
    assert!(is_authorized(&config, Some("p"), Some("Bearer good"), "", "1.2.3.4", None));
    assert!(!is_authorized(&config, Some("p"), Some("Bearer nope"), "", "1.2.3.4", None));
    assert!(is_authorized(&config, None, None, "token=better", "1.2.3.4", None));
}

#[test]
fn project_policy_overrides_server_policy() {
    let mut strict = tokens("both");
    strict.allowed_tokens = vec!["projtok".to_string()];
    strict.allowed_addresses = vec!["10.9.9.9".to_string()];
    let config = config_with_project_auth(Some(strict));
    assert!(is_authorized(
        &config,
        Some("p"),
        Some("Bearer projtok"),
        "",
        "ignored",
        Some("10.9.9.9")
    ));
    assert!(!is_authorized(
        &config,
        Some("p"),
        Some("Bearer projtok"),
        "",
        "ignored",
        Some("10.0.0.1")
    ));
    assert!(!is_authorized(&config, Some("p"), Some("Bearer good"), "", "ignored", Some("10.9.9.9")));
}

#[test]
fn unknown_auth_type_allows_nobody() {
    let mut config = config_with_project_auth(None);
    config.auth.auth_type = "open".to_string();
    assert!(!is_authorized(&config, None, Some("Bearer good"), "token=good", "10.0.0.1", None));
}
