use mortimeriot::client::api::check_status;
use mortimeriot::client::api::{trim_end_slashes, ApiClient, Endpoint};
use mortimeriot::client::cli::{LogLevel, WeatherListArgs};
use mortimeriot::client::config::ConnectionArgs;
use mortimeriot::logging::TracingLevel;

#[test]
fn client_log_levels_map_to_tracing_levels() {
    assert_eq!(LogLevel::Error.to_tracing_level(), TracingLevel::Error);
    assert_eq!(LogLevel::Warn.to_tracing_level(), TracingLevel::Warn);
    assert_eq!(LogLevel::Info.to_tracing_level(), TracingLevel::Info);
    assert_eq!(LogLevel::Debug.to_tracing_level(), TracingLevel::Debug);
    assert_eq!(LogLevel::Trace.to_tracing_level(), TracingLevel::Trace);
}

#[test]
fn trailing_slashes_are_trimmed() {
    assert_eq!(trim_end_slashes("http://host:2111///"), "http://host:2111");
    assert_eq!(trim_end_slashes("http://host:2111"), "http://host:2111");
    assert_eq!(trim_end_slashes("///"), "");
    assert_eq!(trim_end_slashes(""), "");
    assert_eq!(trim_end_slashes("a/b/"), "a/b");
    assert_eq!(trim_end_slashes("é/"), "é");
    let once = trim_end_slashes("x//");
    assert_eq!(trim_end_slashes(&once), once);
}

#[test]
fn client_urls() {
    let client = ApiClient::new("http://127.0.0.1:2111/".to_owned(), Some("key".to_owned()));
    assert_eq!(client.url(Endpoint::Health.path()), "http://127.0.0.1:2111/api/v1/health");
    assert_eq!(client.url(Endpoint::Version.path()), "http://127.0.0.1:2111/api/v1/version");
    assert_eq!(client.url(Endpoint::ListWeather.path()), "http://127.0.0.1:2111/api/v1/weather");
    assert_eq!(client.url(Endpoint::PostWeather.path()), "http://127.0.0.1:2111/api/v1/weather");
    assert_eq!(client.url(Endpoint::LatestWeather.path()), "http://127.0.0.1:2111/api/v1/weather/latest");
    assert_eq!(client.auth_key().map(|k| k.as_str()), Some("key"));
    assert!(Endpoint::PostWeather.is_post());
    assert!(!Endpoint::ListWeather.is_post());
    let anonymous = ConnectionArgs { base_url: "http://h".to_owned(), auth_key: None }.into_client();
    assert!(anonymous.auth_key().is_none());
    assert_eq!(anonymous.url("/x"), "http://h/x");
}

#[test]
fn list_arguments_become_query() {
    let query = WeatherListArgs {
        from: Some("2026-07-21T12:00:00Z".to_owned()),
        to: None,
        limit: Some(5),
        cursor: Some(9),
    }
    .into_query();
    assert_eq!(query.from.as_deref(), Some("2026-07-21T12:00:00Z"));
    assert_eq!(query.to, None);
    assert_eq!(query.limit, Some(5));
    assert_eq!(query.cursor, Some(9));
}

#[test]
fn answer_status_decides_reading() {
    assert!(check_status(200, "200 OK").is_ok());
    assert!(check_status(201, "201 Created").is_ok());
    assert!(check_status(299, "299 <unknown status code>").is_ok());
    assert_eq!(check_status(404, "404 Not Found").unwrap_err(), "request failed with status 404 Not Found");
    assert_eq!(
        check_status(500, "500 Internal Server Error").unwrap_err(),
        "request failed with status 500 Internal Server Error"
    );
    assert_eq!(check_status(199, "199 x").unwrap_err(), "request failed with status 199 x");
    assert_eq!(check_status(300, "300 Multiple Choices").unwrap_err(), "request failed with status 300 Multiple Choices");
}
