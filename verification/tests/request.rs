use rocket_sentry::request::{
    request_to_header_map, request_to_query_string, request_to_transaction_name, Request,
};

fn request(method: &str, path: &str, query: Option<&str>, headers: &[(&str, &str)]) -> Request {
    Request {
        method: method.to_string(),
        path: path.to_string(),
        query: query.map(|query| query.to_string()),
        headers: headers
            .iter()
            .map(|(name, value)| (name.to_string(), value.to_string()))
            .collect(),
    }
}

#[test]
fn request_to_sentry_transaction_name_get_no_path() {
    let request = request("GET", "/", None, &[]);

    let transaction_name = request_to_transaction_name(&request);

    assert_eq!(transaction_name, "GET /");
}

#[test]
fn request_to_sentry_transaction_name_get_some_path() {
    let request = request("GET", "/some/path", None, &[]);

    let transaction_name = request_to_transaction_name(&request);

    assert_eq!(transaction_name, "GET /some/path");
}

#[test]
fn request_to_sentry_transaction_name_post_path_with_variables() {
    let request = request("POST", "/users/6", None, &[]);

    let transaction_name = request_to_transaction_name(&request);

    assert_eq!(transaction_name, "POST /users/6");
}

#[test]
fn request_to_sentry_transaction_name_leaves_the_query_out() {
    let request = request("GET", "/search", Some("q=rust&page=2"), &[("accept", "*/*")]);

    assert_eq!(request_to_transaction_name(&request), "GET /search");
}

#[test]
fn request_to_sentry_transaction_name_of_empty_parts_is_one_space() {
    let request = request("", "", None, &[]);

    assert_eq!(request_to_transaction_name(&request), " ");
}

#[test]
fn request_to_query_string_is_none() {
    let request = request("POST", "/", None, &[]);

    let query_string = request_to_query_string(&request);

    assert_eq!(query_string, None);
}

#[test]
fn request_to_query_string_single_parameter() {
    let request = request("POST", "/", Some("param1=value1"), &[]);

    let query_string = request_to_query_string(&request);

    assert_eq!(query_string, Some("param1=value1".to_string()));
}

#[test]
fn request_to_query_string_multiple_parameters() {
    let request = request("POST", "/", Some("param1=value1&param2=value2"), &[]);

    let query_string = request_to_query_string(&request);

    assert_eq!(
        query_string,
        Some("param1=value1&param2=value2".to_string())
    );
}

#[test]
fn request_to_query_string_keeps_an_empty_query() {
    let request = request("GET", "/", Some(""), &[]);

    assert_eq!(request_to_query_string(&request), Some(String::new()));
}

#[test]
fn request_to_header_map_is_empty() {
    let request = request("GET", "/", None, &[]);

    let header_map = request_to_header_map(&request);

    assert!(header_map.is_empty());
    assert_eq!(header_map.len(), 0);
}

#[test]
fn request_to_header_map_multiple() {
    let request = request(
        "GET",
        "/",
        None,
        &[
            ("Content-Type", "application/json"),
            ("custom-key", "custom-value"),
        ],
    );

    let header_map = request_to_header_map(&request);

    assert_eq!(
        header_map.get("custom-key"),
        Some(&"custom-value".to_string())
    );
    assert_eq!(
        header_map.get("Content-Type"),
        Some(&"application/json".to_string())
    );
    assert_eq!(header_map.len(), 2);
    assert!(!header_map.is_empty());
}

#[test]
fn request_to_header_map_keeps_the_last_value_of_a_name() {
    let request = request(
        "GET",
        "/",
        None,
        &[("accept", "text/html"), ("x-id", "1"), ("accept", "text/plain")],
    );

    let header_map = request_to_header_map(&request);

    assert_eq!(header_map.len(), 2);
    assert_eq!(header_map.get("accept"), Some(&"text/plain".to_string()));
    assert_eq!(header_map.get("x-id"), Some(&"1".to_string()));
}

#[test]
fn request_to_header_map_keeps_the_case_of_names() {
    let request = request("GET", "/", None, &[("X-Trace", "a"), ("x-trace", "b")]);

    let header_map = request_to_header_map(&request);

    assert_eq!(header_map.len(), 2);
    assert_eq!(header_map.get("X-Trace"), Some(&"a".to_string()));
    assert_eq!(header_map.get("x-trace"), Some(&"b".to_string()));
    assert_eq!(header_map.get("X-TRACE"), None);
}
