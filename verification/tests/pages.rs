use notion::client::Client;
use notion::common::{File, FileLink, Icon};
use notion::error::{DecodeFailure, Error};
use notion::http::{Method, Response};
use notion::page::{Page, Parent};

const PAGE_BODY: &str = "{\"object\":\"page\",\"id\":\"p1\",\
\"created_time\":\"2021-08-16T10:00:00.000Z\",\"last_edited_time\":\"2021-08-17T11:30:00.000Z\",\
\"archived\":false,\
\"icon\":{\"type\":\"emoji\",\"emoji\":\"\u{1F96C}\"},\
\"cover\":{\"type\":\"external\",\"external\":{\"url\":\"https://example.com/c.png\"}},\
\"url\":\"https://www.notion.so/p1\",\
\"parent\":{\"type\":\"database_id\",\"database_id\":\"db1\"},\
\"properties\":{\"Name\":{\"type\":\"title\",\"title\":[]},\"Score\":{\"number\":1.5}},\
\"unknown_field\":[1,2,3]}";

const BARE_PAGE_BODY: &str = "{\"object\":\"page\",\"id\":\"p2\",\
\"created_time\":\"2021-08-16T10:00:00.000Z\",\"last_edited_time\":\"2021-08-17T11:30:00.000Z\",\
\"archived\":true,\"icon\":null,\"url\":\"https://www.notion.so/p2\"}";

fn client() -> Client {
    Client::new("secret_abc123", None, None).unwrap()
}

fn value(text: &str) -> serde_json::Value {
    serde_json::from_str(text).unwrap()
}

#[test]
fn database_parent_populates_only_the_database() {
    let parent = Parent::new_database_parent(String::from("db1"));
    assert_eq!(parent.parent_type, "database_id");
    assert_eq!(parent.database_id, Some(String::from("db1")));
    assert_eq!(parent.page_id, None);
    assert_eq!(parent.workspace, None);
}

#[test]
fn page_parent_populates_only_the_page() {
    let parent = Parent::new_page_parent(String::from("p1"));
    assert_eq!(parent.parent_type, "page_id");
    assert_eq!(parent.database_id, None);
    assert_eq!(parent.page_id, Some(String::from("p1")));
    assert_eq!(parent.workspace, None);
}

#[test]
fn workspace_parent_populates_only_the_workspace() {
    let parent = Parent::new_workspace_parent();
    assert_eq!(parent.parent_type, "workspace");
    assert_eq!(parent.database_id, None);
    assert_eq!(parent.page_id, None);
    assert_eq!(parent.workspace, Some(true));
}

#[test]
fn database_parent_round_trips_through_text() {
    let parent = Parent::new_database_parent(String::from("94ce3f36582747ce971eb0159873648f"));
    let text = parent.to_json().to_string();
    assert_eq!(
        text,
        "{\"database_id\":\"94ce3f36582747ce971eb0159873648f\",\"type\":\"database_id\"}"
    );
    let back = Parent::from_json(&value(&text)).unwrap();
    assert_eq!(back.parent_type, "database_id");
    assert_eq!(back.database_id, Some(String::from("94ce3f36582747ce971eb0159873648f")));
    assert_eq!(back.page_id, None);
    assert_eq!(back.workspace, None);
}

#[test]
fn every_parent_round_trips_through_text() {
    let parents = vec![
        Parent::new_database_parent(String::from("")),
        Parent::new_page_parent(String::from("p \"quoted\" \u{e9}")),
        Parent::new_workspace_parent(),
        Parent {
            parent_type: String::from("block_id"),
            database_id: None,
            page_id: None,
            workspace: Some(false),
        },
    ];
    for parent in parents {
        let text = parent.to_json().to_string();
        assert_eq!(Parent::from_json(&value(&text)), Some(parent));
    }
}

#[test]
fn a_parent_reads_null_and_absent_alike() {
    let with_nulls = value("{\"type\":\"page_id\",\"database_id\":null,\"page_id\":\"p1\",\"workspace\":null}");
    let without = value("{\"type\":\"page_id\",\"page_id\":\"p1\"}");
    assert_eq!(Parent::from_json(&with_nulls), Some(Parent::new_page_parent(String::from("p1"))));
    assert_eq!(Parent::from_json(&without), Some(Parent::new_page_parent(String::from("p1"))));
}

#[test]
fn a_parent_without_type_or_with_wrong_types_is_refused() {
    assert_eq!(Parent::from_json(&value("{\"page_id\":\"p1\"}")), None);
    assert_eq!(Parent::from_json(&value("{\"type\":null,\"page_id\":\"p1\"}")), None);
    assert_eq!(Parent::from_json(&value("{\"type\":\"page_id\",\"page_id\":1}")), None);
    assert_eq!(Parent::from_json(&value("{\"type\":\"workspace\",\"workspace\":\"yes\"}")), None);
    assert_eq!(Parent::from_json(&value("[\"type\"]")), None);
}

#[test]
fn get_page_composes_a_get() {
    let request = client().get_page("p1");
    assert_eq!(request.method, Method::Get);
    assert_eq!(request.url, "https://api.notion.com/v1/pages/p1");
    assert!(request.query.is_empty());
    assert_eq!(request.body, None);
}

#[test]
fn a_page_decodes_with_its_nested_values() {
    let page = Page::from_response(&Response::new(200, String::from(PAGE_BODY))).unwrap();
    assert_eq!(page.object, "page");
    assert_eq!(page.id, "p1");
    assert_eq!(page.created_time, "2021-08-16T10:00:00.000Z");
    assert_eq!(page.last_edited_time, "2021-08-17T11:30:00.000Z");
    assert!(!page.archived);
    assert_eq!(
        page.icon,
        Some(Icon {
            icon_type: String::from("emoji"),
            emoji: Some(String::from("\u{1F96C}")),
            external: None,
            file: None,
        })
    );
    assert_eq!(
        page.cover,
        Some(File {
            file_type: String::from("external"),
            external: Some(FileLink {
                url: String::from("https://example.com/c.png"),
                expiry_time: None,
            }),
            file: None,
        })
    );
    assert_eq!(page.url, "https://www.notion.so/p1");
    assert_eq!(page.parent, Some(Parent::new_database_parent(String::from("db1"))));
    let properties = page.properties.unwrap();
    assert_eq!(properties.len(), 2);
    assert_eq!(properties["Score"], value("{\"number\":1.5}"));
    assert_eq!(properties["Name"], value("{\"type\":\"title\",\"title\":[]}"));
}

#[test]
fn a_page_decodes_without_its_optional_fields() {
    let page = Page::from_response(&Response::new(200, String::from(BARE_PAGE_BODY))).unwrap();
    assert_eq!(page.id, "p2");
    assert!(page.archived);
    assert_eq!(page.icon, None);
    assert_eq!(page.cover, None);
    assert_eq!(page.parent, None);
    assert_eq!(page.properties, None);
}

#[test]
fn a_page_with_a_malformed_optional_field_is_refused() {
    for (key, bad) in [
        ("icon", "{\"emoji\":\"x\"}"),
        ("icon", "\"emoji\""),
        ("cover", "{\"type\":\"external\",\"external\":{}}"),
        ("parent", "{\"database_id\":\"db1\"}"),
        ("properties", "[]"),
        ("properties", "\"none\""),
        ("url", "null"),
        ("archived", "0"),
    ] {
        let mut json = value(PAGE_BODY);
        json[key] = value(bad);
        assert_eq!(Page::from_json(&json), None);
        assert_eq!(
            Page::from_response(&Response::new(200, json.to_string())),
            Err(Error::Decode { failure: DecodeFailure::Schema })
        );
    }
}

#[test]
fn a_page_is_rejected_with_status_and_body() {
    assert_eq!(
        Page::from_response(&Response::new(401, String::from("{\"code\":\"unauthorized\"}"))),
        Err(Error::RemoteRejection {
            status: 401,
            body: String::from("{\"code\":\"unauthorized\"}"),
        })
    );
}

#[test]
fn a_page_round_trips_through_text() {
    for body in [PAGE_BODY, BARE_PAGE_BODY] {
        let page = Page::from_json(&value(body)).unwrap();
        let text = page.to_json().to_string();
        assert_eq!(Page::from_json(&value(&text)), Some(page));
    }
}

#[test]
fn a_page_is_written_without_its_absent_fields() {
    let page = Page::from_json(&value(BARE_PAGE_BODY)).unwrap();
    let json = page.to_json();
    let members = json.as_object().unwrap();
    assert_eq!(members.len(), 6);
    for key in ["icon", "cover", "parent", "properties"] {
        assert!(!members.contains_key(key));
    }
    assert_eq!(
        json.to_string(),
        "{\"archived\":true,\"created_time\":\"2021-08-16T10:00:00.000Z\",\"id\":\"p2\",\
\"last_edited_time\":\"2021-08-17T11:30:00.000Z\",\"object\":\"page\",\
\"url\":\"https://www.notion.so/p2\"}"
    );
}

#[test]
fn update_page_carries_the_page_as_its_body() {
    let page = Page::from_json(&value(PAGE_BODY)).unwrap();
    let expected = page.to_json();
    let request = client().update_page("p1", page);
    assert_eq!(request.method, Method::Patch);
    assert_eq!(request.url, "https://api.notion.com/v1/pages/p1");
    assert!(request.query.is_empty());
    assert_eq!(
        request.headers[2],
        (String::from("Content-Type"), String::from("application/json"))
    );
    let body = value(&request.body.unwrap());
    assert_eq!(body, expected);
    assert_eq!(body["parent"], value("{\"type\":\"database_id\",\"database_id\":\"db1\"}"));
    assert_eq!(body["icon"], value("{\"type\":\"emoji\",\"emoji\":\"\u{1F96C}\"}"));
    assert_eq!(body["properties"]["Score"]["number"], value("1.5"));
    assert!(body.get("unknown_field").is_none());
    assert_eq!(Response::new(200, String::from("{}")).acknowledged(), Ok(()));
}

#[test]
fn links_files_and_icons_round_trip_through_text() {
    let hosted = FileLink {
        url: String::from("https://files.example/a"),
        expiry_time: Some(String::from("2021-08-16T11:00:00.000Z")),
    };
    let text = hosted.to_json().to_string();
    assert_eq!(
        text,
        "{\"expiry_time\":\"2021-08-16T11:00:00.000Z\",\"url\":\"https://files.example/a\"}"
    );
    assert_eq!(FileLink::from_json(&value(&text)), Some(hosted.clone()));
    let file = File { file_type: String::from("file"), external: None, file: Some(hosted.clone()) };
    assert_eq!(File::from_json(&value(&file.to_json().to_string())), Some(file));
    let icon = Icon {
        icon_type: String::from("file"),
        emoji: None,
        external: None,
        file: Some(hosted),
    };
    assert_eq!(Icon::from_json(&value(&icon.to_json().to_string())), Some(icon));
    assert_eq!(FileLink::from_json(&value("{\"expiry_time\":\"x\"}")), None);
    assert_eq!(File::from_json(&value("{\"type\":\"file\",\"file\":7}")), None);
    assert_eq!(Icon::from_json(&value("{\"type\":\"emoji\",\"emoji\":false}")), None);
}
