use notion::block::{Block, Blocks};
use notion::client::Client;
use notion::error::{DecodeFailure, Error};
use notion::http::{Method, Response};

const BLOCK_BODY: &str = "{\"object\":\"block\",\"id\":\"abc123\",\"type\":\"paragraph\",\
\"created_time\":\"2021-08-16T10:00:00.000Z\",\"last_edited_time\":\"2021-08-17T11:30:00.000Z\",\
\"archived\":false,\"has_children\":true,\"paragraph\":{\"text\":[]}}";

fn client() -> Client {
    Client::new("secret_abc123", None, None).unwrap()
}

fn schema_failure<T>() -> Result<T, Error> {
    Err(Error::Decode { failure: DecodeFailure::Schema })
}

#[test]
fn get_block_yields_the_decoded_block() {
    let request = client().get_block("abc123");
    assert_eq!(request.method, Method::Get);
    assert_eq!(request.url, "https://api.notion.com/v1/block/abc123");
    assert!(request.query.is_empty());
    assert_eq!(request.body, None);

    let block = Block::from_response(&Response::new(200, String::from(BLOCK_BODY))).unwrap();
    assert_eq!(block.id, "abc123");
    assert_eq!(block.object, "block");
    assert_eq!(block.block_type, "paragraph");
    assert_eq!(block.created_time, "2021-08-16T10:00:00.000Z");
    assert_eq!(block.last_edited_time, "2021-08-17T11:30:00.000Z");
    assert!(!block.archived);
    assert!(block.has_children);
}

#[test]
fn get_block_reports_a_rejection_with_status_and_body() {
    let request = client().get_block("missing");
    assert_eq!(request.url, "https://api.notion.com/v1/block/missing");
    let response = Response::new(404, String::from("{\"message\":\"not found\"}"));
    assert_eq!(
        Block::from_response(&response),
        Err(Error::RemoteRejection {
            status: 404,
            body: String::from("{\"message\":\"not found\"}"),
        })
    );
}

#[test]
fn a_rejection_is_reported_even_where_the_body_is_a_block() {
    let response = Response::new(201, String::from(BLOCK_BODY));
    assert_eq!(
        Block::from_response(&response),
        Err(Error::RemoteRejection { status: 201, body: String::from(BLOCK_BODY) })
    );
}

#[test]
fn the_same_response_decodes_to_the_same_block() {
    let response = Response::new(200, String::from(BLOCK_BODY));
    assert_eq!(Block::from_response(&response), Block::from_response(&response));
}

#[test]
fn a_body_that_is_no_json_is_a_syntax_failure() {
    assert_eq!(
        Block::from_response(&Response::new(200, String::from("<html>"))),
        Err(Error::Decode { failure: DecodeFailure::Syntax })
    );
    assert_eq!(
        Block::from_response(&Response::new(200, String::new())),
        Err(Error::Decode { failure: DecodeFailure::Syntax })
    );
}

#[test]
fn a_block_without_a_required_field_is_a_schema_failure() {
    for missing in ["object", "id", "type", "created_time", "last_edited_time", "archived", "has_children"] {
        let mut json: serde_json::Value = serde_json::from_str(BLOCK_BODY).unwrap();
        json.as_object_mut().unwrap().remove(missing);
        assert_eq!(Block::from_json(&json), None);
        assert_eq!(
            Block::from_response(&Response::new(200, json.to_string())),
            schema_failure()
        );
    }
}

#[test]
fn a_block_with_a_field_of_another_type_is_a_schema_failure() {
    let mut json: serde_json::Value = serde_json::from_str(BLOCK_BODY).unwrap();
    json["archived"] = serde_json::Value::from("false");
    assert_eq!(Block::from_json(&json), None);
    let mut json: serde_json::Value = serde_json::from_str(BLOCK_BODY).unwrap();
    json["id"] = serde_json::Value::from(7);
    assert_eq!(Block::from_json(&json), None);
    let mut json: serde_json::Value = serde_json::from_str(BLOCK_BODY).unwrap();
    json["id"] = serde_json::Value::Null;
    assert_eq!(Block::from_json(&json), None);
    assert_eq!(Block::from_json(&serde_json::Value::from("block")), None);
    assert_eq!(Block::from_json(&serde_json::Value::Array(Vec::new())), None);
}

#[test]
fn delete_block_composes_a_delete() {
    let request = client().delete_block("abc123");
    assert_eq!(request.method, Method::Delete);
    assert_eq!(request.url, "https://api.notion.com/v1/block/abc123");
    assert!(request.query.is_empty());
    assert_eq!(request.body, None);
}

#[test]
fn update_block_succeeds_without_a_request() {
    let block = Block::from_response(&Response::new(200, String::from(BLOCK_BODY))).unwrap();
    assert_eq!(client().update_block(String::from("abc123"), block), Ok(()));
}

#[test]
fn list_call_places_the_cursor_in_the_query() {
    let request = client().get_block_children("abc123", Some(String::from("tok1")), None);
    assert_eq!(request.method, Method::Get);
    assert_eq!(request.url, "https://api.notion.com/v1/block/abc123/children");
    assert_eq!(request.query, vec![(String::from("start_cursor"), String::from("tok1"))]);
    assert_eq!(request.body, None);
}

#[test]
fn list_call_places_the_page_size_after_the_cursor() {
    let request = client().get_block_children("b", Some(String::from("tok1")), Some(50));
    assert_eq!(
        request.query,
        vec![
            (String::from("start_cursor"), String::from("tok1")),
            (String::from("page_size"), String::from("50")),
        ]
    );
    let request = client().get_block_children("b", None, Some(0));
    assert_eq!(request.query, vec![(String::from("page_size"), String::from("0"))]);
    let request = client().get_block_children("b", None, None);
    assert!(request.query.is_empty());
    assert_eq!(request.body, None);
}

fn page_body(end: &str) -> String {
    format!("{{\"object\":\"list\",\"results\":[{},{}],{}}}", BLOCK_BODY, BLOCK_BODY, end)
}

#[test]
fn a_page_of_blocks_keeps_the_order_and_the_cursor() {
    let body = page_body("\"next_cursor\":\"tok2\",\"has_more\":true");
    let page = Blocks::from_response(&Response::new(200, body)).unwrap();
    assert_eq!(page.object, "list");
    assert_eq!(page.results.len(), 2);
    assert_eq!(page.results[0].id, "abc123");
    assert_eq!(page.next_cursor, Some(String::from("tok2")));
    assert!(page.has_more);
}

#[test]
fn the_last_page_of_blocks_has_no_cursor() {
    for end in ["\"next_cursor\":null,\"has_more\":false", "\"has_more\":false"] {
        let page = Blocks::from_response(&Response::new(200, page_body(end))).unwrap();
        assert!(!page.has_more);
        assert_eq!(page.next_cursor, None);
    }
}

#[test]
fn a_page_that_ends_with_a_cursor_and_no_more_results_is_refused() {
    let body = page_body("\"next_cursor\":\"tok2\",\"has_more\":false");
    assert_eq!(Blocks::from_response(&Response::new(200, body)), schema_failure());
}

#[test]
fn a_page_with_more_results_may_lack_the_cursor() {
    let page = Blocks::from_response(&Response::new(200, page_body("\"has_more\":true"))).unwrap();
    assert!(page.has_more);
    assert_eq!(page.next_cursor, None);
}

#[test]
fn a_page_of_blocks_with_a_bad_element_is_refused() {
    let body = "{\"object\":\"list\",\"results\":[{\"object\":\"block\"}],\"has_more\":false}";
    assert_eq!(Blocks::from_response(&Response::new(200, String::from(body))), schema_failure());
    let body = "{\"object\":\"list\",\"results\":{},\"has_more\":false}";
    assert_eq!(Blocks::from_response(&Response::new(200, String::from(body))), schema_failure());
    let body = "{\"object\":\"list\",\"results\":[]}";
    assert_eq!(Blocks::from_response(&Response::new(200, String::from(body))), schema_failure());
    let body = "{\"object\":\"list\",\"results\":[],\"has_more\":false,\"next_cursor\":7}";
    assert_eq!(Blocks::from_response(&Response::new(200, String::from(body))), schema_failure());
}

#[test]
fn an_empty_page_of_blocks_decodes() {
    let body = "{\"object\":\"list\",\"results\":[],\"has_more\":false}";
    let page = Blocks::from_response(&Response::new(200, String::from(body))).unwrap();
    assert!(page.results.is_empty());
    assert_eq!(
        Blocks::from_response(&Response::new(429, String::from(body))),
        Err(Error::RemoteRejection { status: 429, body: String::from(body) })
    );
}
