//! The directory of users: people and bots.

use serde_json::Value;
use vstd::prelude::*;
use crate::client::Client;
use crate::error::{DecodeFailure, Error, ErrorView};
use crate::http::{decoded, Method, Request, Response, ResponseView};
use crate::json::{
    array_view, each_decoded, field, json_view, optional_flag, optional_text, required_items,
    required_text, JsonView,
};
use crate::pagination::{consistent, continuation, read_continuation};
use crate::text::join;

verus! {

/// The identifier under which the service answers with the user that the
/// credential belongs to.
pub const ME: &'static str = "me";

/// What is known of a user who is a person.
#[derive(Debug, Clone, PartialEq, Eq)]
pub struct Person {
    pub email: String,
}

/// The mathematical content of a [`Person`].
pub struct PersonView {
    pub email: Seq<char>,
}

impl View for Person {
    type V = PersonView;

    open spec fn view(&self) -> PersonView {
        PersonView { email: self.email@ }
    }
}

impl DeepView for Person {
    type V = PersonView;

    open spec fn deep_view(&self) -> PersonView {
        self@
    }
}

impl PersonView {
    /// The person that a document stands for: the string `email` is
    /// required. `None` where the document does not fit.
    pub open spec fn from_json(json: JsonView) -> Option<PersonView> {
        match json.required_text("email"@) {
            Some(email) => Some(PersonView { email }),
            None => None,
        }
    }

    /// The schema of a person, as a function.
    pub open spec fn schema() -> spec_fn(JsonView) -> Option<PersonView> {
        |json: JsonView| Self::from_json(json)
    }
}

impl Person {
    /// Reads a person from a document.
    pub fn from_json(json: &Value) -> (r: Option<Person>)
        ensures
            r.deep_view() == PersonView::from_json(json_view(*json)),
    {
        match required_text(json, "email") {
            Some(email) => Some(Person { email }),
            None => None,
        }
    }
}

/// Who owns a bot: the workspace or a user. `owner_type` says which, and
/// only the field that belongs to it holds a value.
#[derive(Debug, PartialEq, Eq)]
pub struct Owner {
    pub owner_type: String,
    pub workspace: Option<bool>,
    pub user: Box<Option<User>>,
}

/// What is known of a user that is a bot.
#[derive(Debug, PartialEq, Eq)]
pub struct Bot {
    pub owner: Option<Owner>,
}

/// One user as the service reports it: a person or a bot. `user_type`
/// says which, and only the field that belongs to it holds a value.
#[derive(Debug, PartialEq, Eq)]
pub struct User {
    pub object: String,
    pub id: String,
    pub name: Option<String>,
    pub avatar_url: Option<String>,
    pub user_type: Option<String>,
    pub person: Option<Person>,
    pub bot: Option<Bot>,
}

/// The mathematical content of an [`Owner`].
pub struct OwnerView {
    pub owner_type: Seq<char>,
    pub workspace: Option<bool>,
    pub user: Option<Box<UserView>>,
}

/// The mathematical content of a [`Bot`].
pub struct BotView {
    pub owner: Option<OwnerView>,
}

/// The mathematical content of a [`User`].
pub struct UserView {
    pub object: Seq<char>,
    pub id: Seq<char>,
    pub name: Option<Seq<char>>,
    pub avatar_url: Option<Seq<char>>,
    pub user_type: Option<Seq<char>>,
    pub person: Option<PersonView>,
    pub bot: Option<BotView>,
}

/// The content of a user.
pub open spec fn user_view(user: User) -> UserView
    decreases user,
{
    UserView {
        object: user.object@,
        id: user.id@,
        name: user.name.deep_view(),
        avatar_url: user.avatar_url.deep_view(),
        user_type: user.user_type.deep_view(),
        person: user.person.deep_view(),
        bot: match user.bot {
            Some(bot) => Some(bot_view(bot)),
            None => None,
        },
    }
}

/// The content of a bot.
pub open spec fn bot_view(bot: Bot) -> BotView
    decreases bot,
{
    BotView {
        owner: match bot.owner {
            Some(owner) => Some(owner_view(owner)),
            None => None,
        },
    }
}

/// The content of an owner.
pub open spec fn owner_view(owner: Owner) -> OwnerView
    decreases owner,
{
    OwnerView {
        owner_type: owner.owner_type@,
        workspace: owner.workspace,
        user: match *owner.user {
            Some(user) => Some(Box::new(user_view(user))),
            None => None,
        },
    }
}

impl View for User {
    type V = UserView;

    open spec fn view(&self) -> UserView {
        user_view(*self)
    }
}

impl DeepView for User {
    type V = UserView;

    open spec fn deep_view(&self) -> UserView {
        user_view(*self)
    }
}

impl View for Bot {
    type V = BotView;

    open spec fn view(&self) -> BotView {
        bot_view(*self)
    }
}

impl View for Owner {
    type V = OwnerView;

    open spec fn view(&self) -> OwnerView {
        owner_view(*self)
    }
}

/// The user that a document stands for: the strings `object` and `id` are
/// required; the strings `name`, `avatar_url` and `type`, the person
/// `person` and the bot `bot` are optional; members of other names are
/// ignored. `None` where the document does not fit.
pub open spec fn user_from_json(json: JsonView) -> Option<UserView>
    decreases json, 2int,
{
    match (
        json.required_text("object"@),
        json.required_text("id"@),
        json.optional_text("name"@),
        json.optional_text("avatar_url"@),
        json.optional_text("type"@),
        json.optional_nested("person"@, PersonView::schema()),
        match json.field("bot"@) {
            None => Some(None),
            Some(found) => match bot_from_json(found) {
                Some(bot) => Some(Some(bot)),
                None => None,
            },
        },
    ) {
        (
            Some(object),
            Some(id),
            Some(name),
            Some(avatar_url),
            Some(user_type),
            Some(person),
            Some(bot),
        ) => Some(UserView { object, id, name, avatar_url, user_type, person, bot }),
        _ => None,
    }
}

/// The bot that a document stands for: the owner `owner` is optional.
/// `None` where the document does not fit.
pub open spec fn bot_from_json(json: JsonView) -> Option<BotView>
    decreases json, 1int,
{
    match json.field("owner"@) {
        None => if json is Object {
            Some(BotView { owner: None })
        } else {
            None
        },
        Some(found) => match owner_from_json(found) {
            Some(owner) => Some(BotView { owner: Some(owner) }),
            None => None,
        },
    }
}

/// The owner that a document stands for: the string `type` is required,
/// the boolean `workspace` and the user `user` are optional. `None` where
/// the document does not fit.
pub open spec fn owner_from_json(json: JsonView) -> Option<OwnerView>
    decreases json, 0int,
{
    match (
        json.required_text("type"@),
        json.optional_flag("workspace"@),
        match json.field("user"@) {
            None => Some(None),
            Some(found) => match user_from_json(found) {
                Some(user) => Some(Some(Box::new(user))),
                None => None,
            },
        },
    ) {
        (Some(owner_type), Some(workspace), Some(user)) => Some(
            OwnerView { owner_type, workspace, user },
        ),
        _ => None,
    }
}

impl UserView {
    /// The schema of a user, as a function.
    pub open spec fn schema() -> spec_fn(JsonView) -> Option<UserView> {
        |json: JsonView| user_from_json(json)
    }

    /// What a response to a request for one user amounts to.
    pub open spec fn outcome(response: ResponseView) -> Result<UserView, ErrorView> {
        decoded(response.document(), Self::schema())
    }
}

impl Owner {
    /// Reads an owner from a document.
    pub fn from_json(json: &Value) -> (r: Option<Owner>)
        ensures
            match r {
                Some(owner) => owner_from_json(json_view(*json)) == Some(owner@),
                None => owner_from_json(json_view(*json)) is None,
            },
        decreases json_view(*json), 0int,
    {
        let owner_type: String = match required_text(json, "type") {
            Some(text) => text,
            None => return None,
        };
        let workspace: Option<bool> = match optional_flag(json, "workspace") {
            Some(flag) => flag,
            None => return None,
        };
        let user: Option<User> = match field(json, "user") {
            Some(found) => match User::from_json(found) {
                Some(user) => Some(user),
                None => return None,
            },
            None => None,
        };
        Some(Owner { owner_type, workspace, user: Box::new(user) })
    }
}

impl Bot {
    /// Reads a bot from a document.
    pub fn from_json(json: &Value) -> (r: Option<Bot>)
        ensures
            match r {
                Some(bot) => bot_from_json(json_view(*json)) == Some(bot@),
                None => bot_from_json(json_view(*json)) is None,
            },
        decreases json_view(*json), 1int,
    {
        match field(json, "owner") {
            Some(found) => match Owner::from_json(found) {
                Some(owner) => Some(Bot { owner: Some(owner) }),
                None => None,
            },
            None => if json.as_object().is_some() {
                Some(Bot { owner: None })
            } else {
                None
            },
        }
    }
}

impl User {
    /// Reads a user from a document.
    pub fn from_json(json: &Value) -> (r: Option<User>)
        ensures
            r.deep_view() == user_from_json(json_view(*json)),
        decreases json_view(*json), 2int,
    {
        let object: String = match required_text(json, "object") {
            Some(text) => text,
            None => return None,
        };
        let id: String = match required_text(json, "id") {
            Some(text) => text,
            None => return None,
        };
        let name: Option<String> = match optional_text(json, "name") {
            Some(text) => text,
            None => return None,
        };
        let avatar_url: Option<String> = match optional_text(json, "avatar_url") {
            Some(text) => text,
            None => return None,
        };
        let user_type: Option<String> = match optional_text(json, "type") {
            Some(text) => text,
            None => return None,
        };
        let person: Option<Person> = match field(json, "person") {
            Some(found) => match Person::from_json(found) {
                Some(person) => Some(person),
                None => return None,
            },
            None => None,
        };
        let bot: Option<Bot> = match field(json, "bot") {
            Some(found) => match Bot::from_json(found) {
                Some(bot) => Some(bot),
                None => return None,
            },
            None => None,
        };
        Some(User { object, id, name, avatar_url, user_type, person, bot })
    }

    /// Interprets the response to [`Client::get_user`] and [`Client::me`]:
    /// a status other than success is a rejection with the status and the
    /// body text, a body that is no JSON or no user a decode failure, and
    /// every other response gives its user.
    pub fn from_response(response: &Response) -> (r: Result<User, Error>)
        ensures
            match r {
                Ok(user) => UserView::outcome(response@) == Ok::<UserView, ErrorView>(user@),
                Err(e) => UserView::outcome(response@) == Err::<UserView, ErrorView>(e@),
            },
    {
        let json: Value = match response.document() {
            Ok(json) => json,
            Err(e) => return Err(e),
        };
        match User::from_json(&json) {
            Some(user) => Ok(user),
            None => Err(Error::Decode { failure: DecodeFailure::Schema }),
        }
    }
}

/// One page of the users of the workspace, in the order of the service.
#[derive(Debug, PartialEq, Eq)]
pub struct Users {
    pub object: String,
    pub results: Vec<User>,
    pub next_cursor: Option<String>,
    pub has_more: bool,
}

/// The mathematical content of a [`Users`].
pub struct UsersView {
    pub object: Seq<char>,
    pub results: Seq<UserView>,
    pub next_cursor: Option<Seq<char>>,
    pub has_more: bool,
}

impl View for Users {
    type V = UsersView;

    open spec fn view(&self) -> UsersView {
        UsersView {
            object: self.object@,
            results: self.results.deep_view(),
            next_cursor: self.next_cursor.deep_view(),
            has_more: self.has_more,
        }
    }
}

impl UsersView {
    /// Whether the page ends consistently: without more results there is
    /// no cursor.
    pub open spec fn wf(self) -> bool {
        consistent(self.next_cursor, self.has_more)
    }

    /// The page that a document stands for: the string `object`, the array
    /// `results` of users and a consistent end. `None` where the document
    /// does not fit.
    pub open spec fn from_json(json: JsonView) -> Option<UsersView> {
        match (
            json.required_text("object"@),
            json.required_items("results"@),
            continuation(json),
        ) {
            (Some(object), Some(items), Some((next_cursor, has_more))) => match each_decoded(
                items,
                UserView::schema(),
            ) {
                Some(results) => Some(UsersView { object, results, next_cursor, has_more }),
                None => None,
            },
            _ => None,
        }
    }

    /// The schema of a page of users, as a function.
    pub open spec fn schema() -> spec_fn(JsonView) -> Option<UsersView> {
        |json: JsonView| Self::from_json(json)
    }

    /// What a response to a request for the users amounts to.
    pub open spec fn outcome(response: ResponseView) -> Result<UsersView, ErrorView> {
        decoded(response.document(), Self::schema())
    }
}

/// Reads every element of an array as a user.
fn users_from_items(items: &Vec<Value>) -> (r: Option<Vec<User>>)
    ensures
        r.deep_view() == each_decoded(array_view(items@), UserView::schema()),
{
    let ghost documents = array_view(items@);
    let mut results: Vec<User> = Vec::new();
    let mut i: usize = 0;
    while i < items.len()
        invariant
            i <= items.len(),
            results.len() == i,
            documents == array_view(items@),
            forall|k: int|
                0 <= k < i ==> (#[trigger] UserView::schema()(documents[k])) == Some(
                    results@[k]@,
                ),
        decreases items.len() - i,
    {
        match User::from_json(&items[i]) {
            Some(user) => {
                results.push(user);
            },
            None => {
                assert(UserView::schema()(documents[i as int]) is None);
                return None;
            },
        }
        i += 1;
    }
    assert(results.deep_view() =~= each_decoded(documents, UserView::schema())->0);
    Some(results)
}

impl Users {
    /// Reads a page of users from a document.
    pub fn from_json(json: &Value) -> (r: Option<Users>)
        ensures
            match r {
                Some(page) => UsersView::from_json(json_view(*json)) == Some(page@),
                None => UsersView::from_json(json_view(*json)) is None,
            },
            r matches Some(page) ==> page@.wf(),
    {
        let object: String = match required_text(json, "object") {
            Some(text) => text,
            None => return None,
        };
        let items: &Vec<Value> = match required_items(json, "results") {
            Some(items) => items,
            None => return None,
        };
        let (next_cursor, has_more): (Option<String>, bool) = match read_continuation(json) {
            Some(end) => end,
            None => return None,
        };
        let results: Vec<User> = match users_from_items(items) {
            Some(results) => results,
            None => return None,
        };
        Some(Users { object, results, next_cursor, has_more })
    }

    /// Interprets the response to [`Client::list_users`]: a status other
    /// than success is a rejection with the status and the body text, a
    /// body that is no JSON or no page of users a decode failure, and
    /// every other response gives its page.
    pub fn from_response(response: &Response) -> (r: Result<Users, Error>)
        ensures
            match r {
                Ok(page) => UsersView::outcome(response@) == Ok::<UsersView, ErrorView>(page@),
                Err(e) => UsersView::outcome(response@) == Err::<UsersView, ErrorView>(e@),
            },
            r matches Ok(page) ==> page@.wf(),
    {
        let json: Value = match response.document() {
            Ok(json) => json,
            Err(e) => return Err(e),
        };
        match Users::from_json(&json) {
            Some(page) => Ok(page),
            None => Err(Error::Decode { failure: DecodeFailure::Schema }),
        }
    }
}

/// The path of the directory of users.
pub open spec fn users_path() -> Seq<char> {
    "/users"@
}

/// The path of the user `id`.
pub open spec fn user_path(id: Seq<char>) -> Seq<char> {
    "/users/"@ + id
}

impl Client {
    /// Composes the request for one page of the users of the workspace,
    /// from `start_cursor` on and of `page_size` results where these are
    /// given; both travel as query parameters. Its response is read by
    /// [`Users::from_response`].
    pub fn list_users(
        &self,
        start_cursor: Option<String>,
        page_size: Option<u32>,
    ) -> (r: Request)
        ensures
            r@ == self@.request(Method::Get, users_path()).paged(
                start_cursor.deep_view(),
                page_size,
            ),
            self@.signs(r@),
    {
        self.build_request(Method::Get, "/users").paged(start_cursor, page_size)
    }

    /// Composes the request that retrieves the user `id`; its response is
    /// read by [`User::from_response`].
    pub fn get_user(&self, id: &str) -> (r: Request)
        ensures
            r@ == self@.request(Method::Get, user_path(id@)),
            self@.signs(r@),
    {
        let path: String = join("/users/", id);
        self.build_request(Method::Get, path.as_str())
    }

    /// Composes the request that retrieves the user that the credential
    /// belongs to; its response is read by [`User::from_response`].
    pub fn me(&self) -> (r: Request)
        ensures
            r@ == self@.request(Method::Get, user_path(ME@)),
            self@.signs(r@),
    {
        self.get_user(ME)
    }
}

/// Every page of users that is read from a document ends consistently:
/// where it reports no more results it holds no cursor.
pub proof fn lemma_users_page_is_consistent(json: JsonView)
    ensures
        UsersView::from_json(json) matches Some(page) ==> (!page.has_more ==> page.next_cursor is None),
{
}

} // verus!
