use pipeline_manager::api::{
    parse_matched_param, parse_string_param, response_log_level, server_url, LogLevel,
};
use pipeline_manager::error::ManagerError;

#[test]
fn successful_responses_are_logged_at_debug() {
    assert_eq!(response_log_level(200, true, "/v0/pipelines"), LogLevel::Debug);
    assert_eq!(response_log_level(201, false, "/v0/pipelines"), LogLevel::Debug);
    assert_eq!(response_log_level(299, false, "/healthz"), LogLevel::Debug);
    assert_eq!(response_log_level(304, true, "/index.html"), LogLevel::Debug);
}

#[test]
fn health_probes_are_logged_at_trace() {
    assert_eq!(response_log_level(200, true, "/healthz"), LogLevel::Trace);
    assert_eq!(response_log_level(304, true, "/healthz"), LogLevel::Trace);
    assert_eq!(response_log_level(200, false, "/healthz"), LogLevel::Debug);
    assert_eq!(response_log_level(200, true, "/healthz/"), LogLevel::Debug);
    assert_eq!(response_log_level(503, true, "/healthz"), LogLevel::Error);
}

#[test]
fn client_errors_are_logged_at_info() {
    assert_eq!(response_log_level(400, true, "/v0/pipelines"), LogLevel::Info);
    assert_eq!(response_log_level(404, false, "/x"), LogLevel::Info);
    assert_eq!(response_log_level(499, false, "/x"), LogLevel::Info);
}

#[test]
fn other_responses_are_logged_at_error() {
    assert_eq!(response_log_level(500, true, "/x"), LogLevel::Error);
    assert_eq!(response_log_level(302, true, "/x"), LogLevel::Error);
    assert_eq!(response_log_level(101, true, "/healthz"), LogLevel::Error);
    assert_eq!(response_log_level(199, true, "/x"), LogLevel::Error);
    assert_eq!(response_log_level(300, true, "/x"), LogLevel::Error);
}

#[test]
fn matched_param_is_returned() {
    match parse_matched_param("pipeline_name", Some("p1".to_string())) {
        Ok(v) => assert_eq!(v, "p1"),
        Err(e) => panic!("{e:?}"),
    }
    match parse_matched_param("pipeline_name", Some(String::new())) {
        Ok(v) => assert_eq!(v, ""),
        Err(e) => panic!("{e:?}"),
    }
}

#[test]
fn missing_param_is_reported_by_name() {
    match parse_matched_param("pipeline_name", None) {
        Err(ManagerError::MissingUrlEncodedParam { param }) => assert_eq!(param, "pipeline_name"),
        other => panic!("{other:?}"),
    }
}

#[test]
fn request_path_params_are_read() {
    let req = actix_web::test::TestRequest::default()
        .param("pipeline_name", "example")
        .to_http_request();
    match parse_string_param(&req, "pipeline_name") {
        Ok(v) => assert_eq!(v, "example"),
        Err(e) => panic!("{e:?}"),
    }
    match parse_string_param(&req, "connector_name") {
        Err(ManagerError::MissingUrlEncodedParam { param }) => assert_eq!(param, "connector_name"),
        other => panic!("{other:?}"),
    }
}

#[test]
fn server_url_uses_the_bind_address_by_default() {
    assert_eq!(server_url(None, "127.0.0.1", 8080), "http://127.0.0.1:8080");
    assert_eq!(server_url(None, "0.0.0.0", 0), "http://0.0.0.0:0");
    assert_eq!(server_url(None, "h", 65535), "http://h:65535");
    assert_eq!(server_url(None, "h", 10), "http://h:10");
}

#[test]
fn server_url_prefers_the_announced_address() {
    assert_eq!(
        server_url(Some("feldera.example".to_string()), "0.0.0.0", 8080),
        "http://feldera.example:8080"
    );
}
