use pilipili_bot::infrastructure::api::EmbyAPI;
use pilipili_bot::infrastructure::logger::logger::Logger;
use pilipili_bot::infrastructure::logger::LogLevel;
use pilipili_bot::infrastructure::network::plugin::{binary_body_text, escape};
use pilipili_bot::infrastructure::network::provider::join_url;
use pilipili_bot::infrastructure::network::{
    create_api, Api, ApiResponse, CurlLoggerPlugin, CurlPlugin, HttpMethod, NetworkProvider, NetworkTask,
    RequestBody, RequestSummary, TargetType,
};

fn pair(name: &str, value: &str) -> (String, String) {
    (name.to_string(), value.to_string())
}

fn summary(headers: Vec<(String, String)>, body: Option<RequestBody>) -> RequestSummary {
    RequestSummary {
        method: "POST".to_string(),
        url: "https://example.com/items?x=1".to_string(),
        headers,
        body,
    }
}

const AGENT: &str = "Mozilla/5.0 (Macintosh; Intel Mac OS X 10_15_7) AppleWebKit/537.36 (KHTML, like Gecko) Chrome/133.0.0.0 Safari/537.36";

#[test]
fn methods_are_written_in_upper_case() {
    assert_eq!(HttpMethod::Get.to_string(), "GET");
    assert_eq!(HttpMethod::Post.to_string(), "POST");
    assert_eq!(HttpMethod::Put.to_string(), "PUT");
    assert_eq!(HttpMethod::Delete.to_string(), "DELETE");
}

#[test]
fn success_is_a_status_from_200_to_299() {
    let response = |status_code| ApiResponse { status_code, body: String::new() };
    assert!(!response(0).is_success());
    assert!(!response(199).is_success());
    assert!(response(200).is_success());
    assert!(response(204).is_success());
    assert!(response(299).is_success());
    assert!(!response(300).is_success());
    assert!(!response(404).is_success());
    assert!(!response(u16::MAX).is_success());
}

#[test]
fn headers_are_set_by_name() {
    let mut api = Api::new(
        "https://example.com".to_string(),
        "/users".to_string(),
        HttpMethod::Post,
        NetworkTask::RequestJson("{\"a\":1}".to_string()),
    );
    assert_eq!(api.base_url, "https://example.com");
    assert_eq!(api.path, "/users");
    assert_eq!(api.method, HttpMethod::Post);
    assert_eq!(api.task, NetworkTask::RequestJson("{\"a\":1}".to_string()));
    assert_eq!(api.headers.len(), 0);
    api.set_header("Content-Type", "application/json");
    api.set_header("User-Agent", "bot");
    assert_eq!(api.headers.len(), 2);
    assert_eq!(api.headers.get("Content-Type"), Some(&"application/json".to_string()));
    api.set_header("User-Agent", "other");
    assert_eq!(api.headers.len(), 2);
    assert_eq!(api.headers.get("User-Agent"), Some(&"other".to_string()));
    assert_eq!(api.headers.get("Content-Type"), Some(&"application/json".to_string()));
    assert_eq!(api.headers.get("content-type"), None);
    assert_eq!(api.path, "/users");
}

#[test]
fn address_and_path_meet_in_one_slash() {
    assert_eq!(join_url("https://a.com", "users"), "https://a.com/users");
    assert_eq!(join_url("https://a.com/", "/users"), "https://a.com/users");
    assert_eq!(join_url("https://a.com///", "///users/1/"), "https://a.com/users/1/");
    assert_eq!(join_url("", ""), "/");
    assert_eq!(join_url("/", "/"), "/");
    assert_eq!(join_url("a/b", "c/d"), "a/b/c/d");
}

#[test]
fn the_user_endpoint_is_described() {
    let api = EmbyAPI::GetUser {
        user_id: "56ed750c57e14553ba2b3bd9c531e1a3".to_string(),
        api_key: "key".to_string(),
    };
    assert_eq!(api.base_url(), "<EMBY_DOMAIN>");
    assert_eq!(api.path(), "emby/Users/56ed750c57e14553ba2b3bd9c531e1a3");
    assert_eq!(api.method(), HttpMethod::Get);
    assert_eq!(api.task(), NetworkTask::RequestParameters(vec![pair("api_key", "key")]));
    assert_eq!(
        api.headers(),
        Some(vec![
            pair("accept", "application/json"),
            pair("origin", "<EMBY_DOMAIN>"),
            pair("referer", "<EMBY_DOMAIN>/"),
            pair("user-agent", AGENT),
        ])
    );
}

struct Bare;

impl TargetType for Bare {
    fn base_url(&self) -> &str {
        "https://emby.example.com/"
    }

    fn path(&self) -> String {
        "/emby/Users/1".to_string()
    }

    fn method(&self) -> HttpMethod {
        HttpMethod::Delete
    }

    fn task(&self) -> NetworkTask {
        NetworkTask::RequestPlain
    }

    fn headers(&self) -> Option<Vec<(String, String)>> {
        None
    }
}

#[test]
fn the_provider_describes_the_request() {
    let provider = NetworkProvider::new(vec!["first", "second"]);
    assert_eq!(provider.plugins(), &vec!["first", "second"]);
    let api = EmbyAPI::GetUser { user_id: "42".to_string(), api_key: "key".to_string() };
    let request = provider.send_request(&api);
    assert_eq!(request.method, HttpMethod::Get);
    assert_eq!(request.url, "<EMBY_DOMAIN>/emby/Users/42");
    assert_eq!(request.headers.len(), 4);
    assert_eq!(request.headers[0], pair("accept", "application/json"));
    assert_eq!(request.headers[3], pair("user-agent", AGENT));
    assert_eq!(request.task, NetworkTask::RequestParameters(vec![pair("api_key", "key")]));

    let bare = provider.send_request(&Bare);
    assert_eq!(bare.method, HttpMethod::Delete);
    assert_eq!(bare.url, "https://emby.example.com/emby/Users/1");
    assert!(bare.headers.is_empty());
    assert_eq!(bare.task, NetworkTask::RequestPlain);
}

#[test]
fn quotes_go_behind_backslashes() {
    assert_eq!(escape("plain", false), "plain");
    assert_eq!(escape("", false), "");
    assert_eq!(escape("it's", false), "it\\'s");
    assert_eq!(escape("say \"hi\"", false), "say \\\"hi\\\"");
    assert_eq!(escape("'\"", false), "\\'\\\"");
    assert_eq!(escape("it's", true), "it\\\\'s");
    assert_eq!(escape("say \"hi\"", true), "say \\\"hi\\\"");
    assert_eq!(escape("a\\b", false), "a\\b");
    assert_eq!(escape("é'ü", false), "é\\'ü");
    for text in ["it's \"x\"", "''", "\"\"", "no quotes", "\\'"] {
        assert_eq!(escape(text, false), text.replace('"', "\\\"").replace("'", "\\'"));
        assert_eq!(escape(text, false), text.replace('\'', "\\'").replace('"', "\\\""));
        assert_eq!(
            escape(text, true),
            text.replace('\'', "\\'").replace('\'', "\\'").replace('\"', "\\\"")
        );
    }
}

#[test]
fn bytes_are_shown_in_hexadecimal() {
    assert_eq!(binary_body_text(&vec![]), "Binary Data (\"\")");
    assert_eq!(binary_body_text(&vec![0]), "Binary Data (\"00\")");
    assert_eq!(binary_body_text(&vec![0, 10, 255, 0xAB]), "Binary Data (\"00 0A FF AB\")");
    let long: Vec<u8> = (0..=255).collect();
    let expected = format!(
        "Binary Data ({:?})",
        long.iter().take(50).map(|&b| format!("{:02X}", b)).collect::<Vec<_>>().join(" ")
    );
    assert_eq!(binary_body_text(&long), expected);
    let fifty: Vec<u8> = vec![0xFF; 50];
    assert_eq!(binary_body_text(&fifty).len(), "Binary Data (\"\")".len() + 50 * 3 - 1);
    assert_eq!(binary_body_text(&vec![0xFF; 51]), binary_body_text(&fifty));
}

#[test]
fn a_request_is_shown_as_a_command() {
    let bare = summary(Vec::new(), None);
    assert_eq!(CurlPlugin::request_to_curl(&bare), "curl -X POST 'https://example.com/items?x=1' ");
    let full = summary(
        vec![pair("accept", "application/json"), pair("x-note", "it's \"here\"")],
        Some(RequestBody::Text("{\"name\":\"O'Neil\"}".to_string())),
    );
    assert_eq!(
        CurlPlugin::request_to_curl(&full),
        "curl -X POST 'https://example.com/items?x=1' -H \"accept: application/json\" \
         -H \"x-note: it\\'s \\\"here\\\"\"  -d '{\\\"name\\\":\\\"O\\'Neil\\\"}'"
    );
    let empty = summary(Vec::new(), Some(RequestBody::Text(String::new())));
    assert_eq!(CurlPlugin::request_to_curl(&empty), CurlPlugin::request_to_curl(&bare));
    let binary = summary(Vec::new(), Some(RequestBody::Binary(vec![0xC3, 0x28])));
    assert_eq!(
        CurlPlugin::request_to_curl(&binary),
        "curl -X POST 'https://example.com/items?x=1'  -d 'Binary Data (\"C3 28\")'"
    );
    let stream = summary(Vec::new(), Some(RequestBody::Stream));
    assert_eq!(
        CurlPlugin::request_to_curl(&stream),
        "curl -X POST 'https://example.com/items?x=1'  -d 'Unknown Content'"
    );
}

#[test]
fn a_request_is_shown_in_the_log() {
    let bare = summary(Vec::new(), None);
    assert_eq!(
        CurlLoggerPlugin::request_to_curl(&bare),
        "curl -X POST 'https://example.com/items?x=1'"
    );
    let full = summary(
        vec![pair("accept", "application/json"), pair("x-note", "it's \"here\"")],
        Some(RequestBody::Text("{\"name\":\"O'Neil\"}".to_string())),
    );
    assert_eq!(
        CurlLoggerPlugin::request_to_curl(&full),
        "curl -X POST 'https://example.com/items?x=1' -H \"accept: application/json\" \
         -H \"x-note: it's \"here\"\" -d '{\\\"name\\\":\\\"O\\\\'Neil\\\"}'"
    );
    let empty = summary(Vec::new(), Some(RequestBody::Text(String::new())));
    assert_eq!(CurlLoggerPlugin::request_to_curl(&empty), CurlLoggerPlugin::request_to_curl(&bare));
    let binary = summary(Vec::new(), Some(RequestBody::Binary(vec![0xC3, 0x28])));
    assert_eq!(
        CurlLoggerPlugin::request_to_curl(&binary),
        "curl -X POST 'https://example.com/items?x=1' -d 'Binary Data (\\\"C3 28\\\")'"
    );
    let stream = summary(Vec::new(), Some(RequestBody::Stream));
    assert_eq!(
        CurlLoggerPlugin::request_to_curl(&stream),
        "curl -X POST 'https://example.com/items?x=1' -d 'Unknown Content'"
    );
}

#[test]
fn the_plugin_words_its_messages() {
    let request = summary(Vec::new(), None);
    assert_eq!(
        CurlPlugin.on_request(&request),
        "Sending request: curl -X POST 'https://example.com/items?x=1' "
    );
    assert_eq!(CurlPlugin.on_response("200 OK"), "Received response with status: 200 OK");
    assert_eq!(CurlPlugin.on_error("timed out"), "Request occurred Error: timed out");
}

#[test]
fn the_logging_plugin_writes_under_the_network_domain() {
    let request = summary(Vec::new(), None);
    let mut logger = Logger::new();
    let sent = CurlLoggerPlugin.on_request(&mut logger, &request).unwrap();
    assert_eq!(sent.level, LogLevel::Info);
    assert_eq!(sent.domain, "[NETWORK]");
    assert_eq!(sent.message, "Sending request: curl -X POST 'https://example.com/items?x=1'");
    let received = CurlLoggerPlugin.on_response(&mut logger, "404 Not Found").unwrap();
    assert_eq!(received.level, LogLevel::Info);
    assert_eq!(received.message, "Received response with status: 404 Not Found");
    assert!(CurlLoggerPlugin.on_error(&mut logger, "before the level").is_none());
    logger.set_log_level(LogLevel::Error);
    let failed = CurlLoggerPlugin.on_error(&mut logger, "timed out").unwrap();
    assert_eq!(failed.level, LogLevel::Error);
    assert_eq!(failed.domain, "[NETWORK]");
    assert_eq!(failed.message, "Request occurred Error: timed out");
    assert!(CurlLoggerPlugin.on_request(&mut logger, &request).is_some());
    logger.set_log_level(LogLevel::Debug);
    assert!(CurlLoggerPlugin.on_request(&mut logger, &request).is_none());
    assert!(CurlLoggerPlugin.on_response(&mut logger, "200 OK").is_none());
    assert!(CurlLoggerPlugin.on_error(&mut logger, "hidden").is_none());
}

#[test]
fn a_made_call_says_json_and_names_a_browser() {
    let api = create_api("https://example.com", "/users", HttpMethod::Get, NetworkTask::RequestPlain);
    assert_eq!(api.base_url, "https://example.com");
    assert_eq!(api.path, "/users");
    assert_eq!(api.method, HttpMethod::Get);
    assert_eq!(api.task, NetworkTask::RequestPlain);
    assert_eq!(api.headers.len(), 2);
    assert_eq!(api.headers.get("Content-Type"), Some(&"application/json".to_string()));
    let browser = r#"
Mozilla/5.0 (Macintosh; Intel Mac OS X 10_15_7) \
AppleWebKit/537.36 (KHTML, like Gecko) \
Chrome/133.0.0.0 Safari/537.36
            "#;
    assert_eq!(api.headers.get("User-Agent"), Some(&browser.to_string()));
}
