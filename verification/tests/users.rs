use notion::client::Client;
use notion::error::{DecodeFailure, Error};
use notion::http::{Method, Response};
use notion::user::{Bot, Owner, Person, User, Users};

const PERSON_BODY: &str = "{\"object\":\"user\",\"id\":\"u1\",\"name\":\"Ada\",\
\"avatar_url\":null,\"type\":\"person\",\"person\":{\"email\":\"ada@example.com\"}}";

const BOT_BODY: &str = "{\"object\":\"user\",\"id\":\"u2\",\"name\":\"Helper\",\
\"avatar_url\":\"https://example.com/b.png\",\"type\":\"bot\",\
\"bot\":{\"owner\":{\"type\":\"user\",\"user\":{\"object\":\"user\",\"id\":\"u1\"}}}}";

fn client() -> Client {
    Client::new("secret_abc123", None, None).unwrap()
}

fn value(text: &str) -> serde_json::Value {
    serde_json::from_str(text).unwrap()
}

fn bare_user(id: &str) -> User {
    User {
        object: String::from("user"),
        id: String::from(id),
        name: None,
        avatar_url: None,
        user_type: None,
        person: None,
        bot: None,
    }
}

#[test]
fn user_requests_address_the_directory() {
    let request = client().list_users(None, None);
    assert_eq!(request.method, Method::Get);
    assert_eq!(request.url, "https://api.notion.com/v1/users");
    assert!(request.query.is_empty());
    assert_eq!(request.body, None);
    let request = client().list_users(Some(String::from("tok1")), Some(100));
    assert_eq!(request.url, "https://api.notion.com/v1/users");
    assert_eq!(
        request.query,
        vec![
            (String::from("start_cursor"), String::from("tok1")),
            (String::from("page_size"), String::from("100")),
        ]
    );
    assert_eq!(request.body, None);
    let request = client().get_user("u1");
    assert_eq!(request.method, Method::Get);
    assert_eq!(request.url, "https://api.notion.com/v1/users/u1");
    let request = client().me();
    assert_eq!(request.method, Method::Get);
    assert_eq!(request.url, "https://api.notion.com/v1/users/me");
    assert_eq!(request.body, None);
}

#[test]
fn a_person_decodes() {
    let user = User::from_response(&Response::new(200, String::from(PERSON_BODY))).unwrap();
    assert_eq!(
        user,
        User {
            object: String::from("user"),
            id: String::from("u1"),
            name: Some(String::from("Ada")),
            avatar_url: None,
            user_type: Some(String::from("person")),
            person: Some(Person { email: String::from("ada@example.com") }),
            bot: None,
        }
    );
}

#[test]
fn a_bot_decodes_with_its_owner() {
    let user = User::from_response(&Response::new(200, String::from(BOT_BODY))).unwrap();
    assert_eq!(user.id, "u2");
    assert_eq!(user.user_type, Some(String::from("bot")));
    assert_eq!(user.avatar_url, Some(String::from("https://example.com/b.png")));
    assert_eq!(user.person, None);
    assert_eq!(
        user.bot,
        Some(Bot {
            owner: Some(Owner {
                owner_type: String::from("user"),
                workspace: None,
                user: Box::new(Some(bare_user("u1"))),
            }),
        })
    );
}

#[test]
fn a_bot_of_the_workspace_decodes() {
    let json = value("{\"owner\":{\"type\":\"workspace\",\"workspace\":true}}");
    assert_eq!(
        Bot::from_json(&json),
        Some(Bot {
            owner: Some(Owner {
                owner_type: String::from("workspace"),
                workspace: Some(true),
                user: Box::new(None),
            }),
        })
    );
    assert_eq!(Bot::from_json(&value("{}")), Some(Bot { owner: None }));
    assert_eq!(Bot::from_json(&value("{\"owner\":null}")), Some(Bot { owner: None }));
    assert_eq!(Bot::from_json(&value("[]")), None);
    assert_eq!(Bot::from_json(&value("\"bot\"")), None);
    assert_eq!(Bot::from_json(&value("{\"owner\":{}}")), None);
}

#[test]
fn an_owner_reads_its_user_at_any_depth() {
    let json = value(
        "{\"type\":\"user\",\"user\":{\"object\":\"user\",\"id\":\"a\",\"bot\":{\"owner\":\
{\"type\":\"user\",\"user\":{\"object\":\"user\",\"id\":\"b\"}}}}}",
    );
    let owner = Owner::from_json(&json).unwrap();
    let outer = (*owner.user).unwrap();
    assert_eq!(outer.id, "a");
    let inner = (*outer.bot.unwrap().owner.unwrap().user).unwrap();
    assert_eq!(inner, bare_user("b"));
    assert_eq!(Owner::from_json(&value("{\"user\":null}")), None);
    assert_eq!(Owner::from_json(&value("{\"type\":\"user\",\"user\":{\"id\":\"a\"}}")), None);
    assert_eq!(Owner::from_json(&value("{\"type\":\"workspace\",\"workspace\":1}")), None);
}

#[test]
fn a_user_that_does_not_fit_is_refused() {
    assert_eq!(Person::from_json(&value("{}")), None);
    assert_eq!(Person::from_json(&value("{\"email\":null}")), None);
    for bad in [
        "{\"id\":\"u1\"}",
        "{\"object\":\"user\"}",
        "{\"object\":\"user\",\"id\":\"u1\",\"name\":7}",
        "{\"object\":\"user\",\"id\":\"u1\",\"type\":false}",
        "{\"object\":\"user\",\"id\":\"u1\",\"person\":{}}",
        "{\"object\":\"user\",\"id\":\"u1\",\"bot\":\"yes\"}",
        "[]",
    ] {
        assert_eq!(User::from_json(&value(bad)), None);
        assert_eq!(
            User::from_response(&Response::new(200, String::from(bad))),
            Err(Error::Decode { failure: DecodeFailure::Schema })
        );
    }
}

#[test]
fn a_user_is_rejected_with_status_and_body() {
    let body = "{\"object\":\"error\",\"status\":404}";
    assert_eq!(
        User::from_response(&Response::new(404, String::from(body))),
        Err(Error::RemoteRejection { status: 404, body: String::from(body) })
    );
    assert_eq!(
        Users::from_response(&Response::new(403, String::from(PERSON_BODY))),
        Err(Error::RemoteRejection { status: 403, body: String::from(PERSON_BODY) })
    );
}

#[test]
fn a_page_of_users_decodes_in_order() {
    let body = format!(
        "{{\"object\":\"list\",\"results\":[{},{}],\"next_cursor\":\"tok\",\"has_more\":true}}",
        PERSON_BODY, BOT_BODY
    );
    let users = Users::from_response(&Response::new(200, body)).unwrap();
    assert_eq!(users.object, "list");
    assert_eq!(users.results.len(), 2);
    assert_eq!(users.results[0].id, "u1");
    assert_eq!(users.results[1].id, "u2");
    assert_eq!(users.next_cursor, Some(String::from("tok")));
    assert!(users.has_more);
}

#[test]
fn a_page_of_users_ends_consistently_or_is_refused() {
    let last = "{\"object\":\"list\",\"results\":[],\"next_cursor\":null,\"has_more\":false}";
    let users = Users::from_response(&Response::new(200, String::from(last))).unwrap();
    assert!(!users.has_more);
    assert_eq!(users.next_cursor, None);
    let odd = "{\"object\":\"list\",\"results\":[],\"next_cursor\":\"tok\",\"has_more\":false}";
    assert_eq!(
        Users::from_response(&Response::new(200, String::from(odd))),
        Err(Error::Decode { failure: DecodeFailure::Schema })
    );
    let bad = "{\"object\":\"list\",\"results\":[{\"object\":\"user\"}],\"has_more\":false}";
    assert_eq!(Users::from_json(&value(bad)), None);
}
