use notion::client::{Client, BASE_API, TOKEN_VARIABLE, VERSION};
use notion::error::Error;
use notion::http::{Method, Request, Response};

fn header<'a>(request: &'a Request, name: &str) -> Option<&'a str> {
    request
        .headers
        .iter()
        .find(|(n, _)| n == name)
        .map(|(_, v)| v.as_str())
}

#[test]
fn construct_succeeds_on_a_credential() {
    let client = Client::new("secret_abc123", None, None).unwrap();
    assert_eq!(client.base_api(), "https://api.notion.com/v1");
    assert_eq!(client.version(), "2021-08-16");
    assert_eq!(BASE_API, "https://api.notion.com/v1");
    assert_eq!(VERSION, "2021-08-16");
}

#[test]
fn construct_takes_the_overrides() {
    let client = Client::new(
        "secret_abc123",
        Some(String::from("http://localhost:8080/v1")),
        Some(String::from("2022-02-22")),
    )
    .unwrap();
    assert_eq!(client.base_api(), "http://localhost:8080/v1");
    assert_eq!(client.version(), "2022-02-22");
    let request = client.build_request(Method::Get, "/users");
    assert_eq!(request.url, "http://localhost:8080/v1/users");
    assert_eq!(header(&request, "Notion-Version"), Some("2022-02-22"));
}

#[test]
fn construct_refuses_the_empty_credential() {
    let error = Client::new("", None, None).unwrap_err();
    assert_eq!(error, Error::InvalidCredential);
    assert!(error.is_configuration());
    assert_eq!(error.message(), "invalid token");
}

#[test]
fn construct_refuses_the_empty_credential_with_overrides() {
    let error = Client::new(
        "",
        Some(String::from("http://localhost")),
        Some(String::from("2022-02-22")),
    )
    .unwrap_err();
    assert_eq!(error, Error::InvalidCredential);
}

#[test]
fn construct_refuses_a_credential_that_no_header_carries() {
    let error = Client::new("secret\nabc", None, None).unwrap_err();
    assert_eq!(error, Error::TransportInit);
    assert!(error.is_configuration());
    let error = Client::new("secret\u{7f}", None, None).unwrap_err();
    assert_eq!(error, Error::TransportInit);
}

#[test]
fn construct_refuses_a_version_that_no_header_carries() {
    let error = Client::new("secret", None, Some(String::from("2021\r\n08"))).unwrap_err();
    assert_eq!(error, Error::TransportInit);
}

#[test]
fn construct_accepts_tabs_and_bytes_beyond_ascii() {
    assert!(Client::new("sec\tret", None, None).is_ok());
    assert!(Client::new("sécret", None, None).is_ok());
    assert!(Client::new(" ", None, None).is_ok());
}

#[test]
fn every_request_carries_both_fixed_headers() {
    let client = Client::new("secret_abc123", None, None).unwrap();
    let requests = vec![
        client.build_request(Method::Put, "/anything"),
        client.get_block("b"),
        client.delete_block("b"),
        client.get_block_children("b", Some(String::from("c")), Some(10)),
        client.get_page("p"),
        client.get_database(String::from("d")),
        client.query_database(String::from("d"), None),
        client.list_users(None, None),
        client.list_users(Some(String::from("c")), Some(5)),
        client.get_user("u"),
        client.me(),
    ];
    for request in &requests {
        assert_eq!(
            request.headers[0],
            (String::from("Authorization"), String::from("Bearer secret_abc123"))
        );
        assert_eq!(
            request.headers[1],
            (String::from("Notion-Version"), String::from("2021-08-16"))
        );
    }
}

#[test]
fn build_request_appends_the_path_to_the_root() {
    let client = Client::new("t", None, None).unwrap();
    let request = client.build_request(Method::Post, "/databases/x/query");
    assert_eq!(request.method, Method::Post);
    assert_eq!(request.url, "https://api.notion.com/v1/databases/x/query");
    assert_eq!(request.headers.len(), 2);
    assert!(request.query.is_empty());
    assert_eq!(request.body, None);
}

#[test]
fn the_same_call_composes_the_same_request() {
    let client = Client::new("secret_abc123", None, None).unwrap();
    assert_eq!(client.get_block("abc123"), client.get_block("abc123"));
    assert_eq!(client.get_page("abc123"), client.get_page("abc123"));
    assert_eq!(client.me(), client.get_user("me"));
    assert_ne!(client.get_block("abc123"), client.get_block("abc124"));
}

#[test]
fn method_names_are_the_wire_verbs() {
    assert_eq!(Method::Get.as_str(), "GET");
    assert_eq!(Method::Post.as_str(), "POST");
    assert_eq!(Method::Put.as_str(), "PUT");
    assert_eq!(Method::Patch.as_str(), "PATCH");
    assert_eq!(Method::Delete.as_str(), "DELETE");
}

#[test]
fn request_additions_extend_query_and_body() {
    let client = Client::new("t", None, None).unwrap();
    let request = client
        .build_request(Method::Get, "/x")
        .with_query("a", "1")
        .with_optional_query("b", &None)
        .with_optional_query("c", &Some(String::from("3")));
    assert_eq!(
        request.query,
        vec![
            (String::from("a"), String::from("1")),
            (String::from("c"), String::from("3"))
        ]
    );
    assert_eq!(request.body, None);
    let json: serde_json::Value = serde_json::from_str("{\"k\":[1,true,null,\"s\"]}").unwrap();
    let request = request.with_json(&json);
    assert_eq!(request.body, Some(String::from("{\"k\":[1,true,null,\"s\"]}")));
    assert_eq!(header(&request, "Content-Type"), Some("application/json"));
    assert_eq!(request.headers.len(), 3);
    assert_eq!(request.query.len(), 2);
}

#[test]
fn acknowledged_classifies_the_status() {
    assert_eq!(Response::new(200, String::new()).acknowledged(), Ok(()));
    assert_eq!(
        Response::new(201, String::from("created")).acknowledged(),
        Err(Error::RemoteRejection { status: 201, body: String::from("created") })
    );
    assert_eq!(
        Response::new(500, String::from("oops")).acknowledged(),
        Err(Error::RemoteRejection { status: 500, body: String::from("oops") })
    );
}

#[test]
fn document_reads_the_body_of_a_success() {
    let json = Response::new(200, String::from("{\"a\": [1, 2]}")).document().unwrap();
    assert_eq!(json["a"][1], serde_json::Value::from(2));
    assert_eq!(
        Response::new(200, String::from("{\"a\": ")).document(),
        Err(Error::Decode { failure: notion::DecodeFailure::Syntax })
    );
    assert_eq!(
        Response::new(401, String::from("{\"a\": 1}")).document(),
        Err(Error::RemoteRejection { status: 401, body: String::from("{\"a\": 1}") })
    );
}

#[test]
fn unwired_operations_succeed_without_a_request() {
    let client = Client::new("t", None, None).unwrap();
    assert_eq!(client.create_page(), Ok(()));
    assert_eq!(client.create_database(), Ok(()));
    assert_eq!(client.update_database(String::from("d")), Ok(()));
}

#[test]
fn setup_uses_the_credential_that_was_found() {
    assert_eq!(TOKEN_VARIABLE, "NOTION_TOKEN");
    let client = Client::setup(Some(String::from("secret_abc123"))).unwrap();
    assert_eq!(client.base_api(), "https://api.notion.com/v1");
    assert_eq!(client.version(), "2021-08-16");
    let request = client.get_block("b");
    assert_eq!(header(&request, "Authorization"), Some("Bearer secret_abc123"));
}

#[test]
fn setup_fails_at_construction_without_a_credential() {
    let error = Client::setup(None).unwrap_err();
    assert_eq!(error, Error::MissingCredential);
    assert!(error.is_configuration());
    assert_eq!(Client::setup(Some(String::new())).unwrap_err(), Error::InvalidCredential);
    assert_eq!(Client::setup(Some(String::from("a\nb"))).unwrap_err(), Error::TransportInit);
}
