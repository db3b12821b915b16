//! Databases, the queries put to them and the pages they answer with.

use serde_json::Value;
use vstd::prelude::*;
use crate::client::Client;
use crate::common::{File, FileView, Icon, IconView, RichText, RichTextView};
use crate::error::{DecodeFailure, Error, ErrorView};
use crate::http::{decoded, Method, Request, RequestView, Response, ResponseView};
use crate::json::{
    array_value, array_view, each_decoded, field, json_view, member, no_members, object_view,
    optional_object, optional_object_view, optional_string, optional_text, put,
    put_optional_members, put_optional_text, put_text, required_items, required_members,
    required_text, with_optional, JsonView, NumberView,
};
use crate::page::{Page, PageView, Parent, ParentView};
use crate::pagination::{consistent, continuation, read_continuation};
use crate::text::join;

verus! {

/// One database as the service reports it. The property schema is kept as
/// the JSON members that the service sent.
#[derive(Debug, Clone, PartialEq, Eq)]
pub struct Database {
    pub object: String,
    pub id: String,
    pub cover: Option<File>,
    pub icon: Option<Icon>,
    pub created_time: String,
    pub last_edited_time: String,
    pub title: Vec<RichText>,
    pub properties: serde_json::Map<String, Value>,
    pub parent: Parent,
    pub url: String,
}

/// The mathematical content of a [`Database`].
pub struct DatabaseView {
    pub object: Seq<char>,
    pub id: Seq<char>,
    pub cover: Option<FileView>,
    pub icon: Option<IconView>,
    pub created_time: Seq<char>,
    pub last_edited_time: Seq<char>,
    pub title: Seq<RichTextView>,
    pub properties: Map<Seq<char>, JsonView>,
    pub parent: ParentView,
    pub url: Seq<char>,
}

impl View for Database {
    type V = DatabaseView;

    open spec fn view(&self) -> DatabaseView {
        DatabaseView {
            object: self.object@,
            id: self.id@,
            cover: self.cover.deep_view(),
            icon: self.icon.deep_view(),
            created_time: self.created_time@,
            last_edited_time: self.last_edited_time@,
            title: self.title.deep_view(),
            properties: object_view(self.properties),
            parent: self.parent@,
            url: self.url@,
        }
    }
}

impl DatabaseView {
    /// The database that a document stands for: the strings `object`,
    /// `id`, `created_time`, `last_edited_time` and `url`, the array
    /// `title` of rich text, the object `properties` and the parent
    /// `parent` are required; the file `cover` and the icon `icon` are
    /// optional; members of other names are ignored. `None` where the
    /// document does not fit.
    pub open spec fn from_json(json: JsonView) -> Option<DatabaseView> {
        match (
            json.required_text("object"@),
            json.required_text("id"@),
            json.optional_nested("cover"@, FileView::schema()),
            json.optional_nested("icon"@, IconView::schema()),
            json.required_text("created_time"@),
            json.required_text("last_edited_time"@),
            json.required_items("title"@),
            json.required_members("properties"@),
            json.required_nested("parent"@, ParentView::schema()),
            json.required_text("url"@),
        ) {
            (
                Some(object),
                Some(id),
                Some(cover),
                Some(icon),
                Some(created_time),
                Some(last_edited_time),
                Some(runs),
                Some(properties),
                Some(parent),
                Some(url),
            ) => match each_decoded(runs, RichTextView::schema()) {
                Some(title) => Some(
                    DatabaseView {
                        object,
                        id,
                        cover,
                        icon,
                        created_time,
                        last_edited_time,
                        title,
                        properties,
                        parent,
                        url,
                    },
                ),
                None => None,
            },
            _ => None,
        }
    }

    /// The schema of a database, as a function.
    pub open spec fn schema() -> spec_fn(JsonView) -> Option<DatabaseView> {
        |json: JsonView| Self::from_json(json)
    }

    /// What a response to a request for one database amounts to.
    pub open spec fn outcome(response: ResponseView) -> Result<DatabaseView, ErrorView> {
        decoded(response.document(), Self::schema())
    }
}

/// Reads every element of an array as a run of rich text.
fn rich_text_from_items(items: &Vec<Value>) -> (r: Option<Vec<RichText>>)
    ensures
        r.deep_view() == each_decoded(array_view(items@), RichTextView::schema()),
{
    let ghost documents = array_view(items@);
    let mut results: Vec<RichText> = Vec::new();
    let mut i: usize = 0;
    while i < items.len()
        invariant
            i <= items.len(),
            results.len() == i,
            documents == array_view(items@),
            forall|k: int|
                0 <= k < i ==> (#[trigger] RichTextView::schema()(documents[k])) == Some(
                    results@[k]@,
                ),
        decreases items.len() - i,
    {
        match RichText::from_json(&items[i]) {
            Some(run) => {
                results.push(run);
            },
            None => {
                assert(RichTextView::schema()(documents[i as int]) is None);
                return None;
            },
        }
        i += 1;
    }
    assert(results.deep_view() =~= each_decoded(documents, RichTextView::schema())->0);
    Some(results)
}

impl Database {
    /// Reads a database from a document.
    pub fn from_json(json: &Value) -> (r: Option<Database>)
        ensures
            match r {
                Some(database) => DatabaseView::from_json(json_view(*json)) == Some(database@),
                None => DatabaseView::from_json(json_view(*json)) is None,
            },
    {
        let object: String = match required_text(json, "object") {
            Some(text) => text,
            None => return None,
        };
        let id: String = match required_text(json, "id") {
            Some(text) => text,
            None => return None,
        };
        let cover: Option<File> = match field(json, "cover") {
            Some(found) => match File::from_json(found) {
                Some(file) => Some(file),
                None => return None,
            },
            None => None,
        };
        let icon: Option<Icon> = match field(json, "icon") {
            Some(found) => match Icon::from_json(found) {
                Some(icon) => Some(icon),
                None => return None,
            },
            None => None,
        };
        let created_time: String = match required_text(json, "created_time") {
            Some(text) => text,
            None => return None,
        };
        let last_edited_time: String = match required_text(json, "last_edited_time") {
            Some(text) => text,
            None => return None,
        };
        let runs: &Vec<Value> = match required_items(json, "title") {
            Some(items) => items,
            None => return None,
        };
        let properties: serde_json::Map<String, Value> = match required_members(
            json,
            "properties",
        ) {
            Some(members) => members,
            None => return None,
        };
        let parent: Parent = match member(json, "parent") {
            Some(found) => match Parent::from_json(found) {
                Some(parent) => parent,
                None => return None,
            },
            None => return None,
        };
        let url: String = match required_text(json, "url") {
            Some(text) => text,
            None => return None,
        };
        let title: Vec<RichText> = match rich_text_from_items(runs) {
            Some(title) => title,
            None => return None,
        };
        Some(
            Database {
                object,
                id,
                cover,
                icon,
                created_time,
                last_edited_time,
                title,
                properties,
                parent,
                url,
            },
        )
    }

    /// Interprets the response to [`Client::get_database`]: a status other
    /// than success is a rejection with the status and the body text, a
    /// body that is no JSON or no database a decode failure, and every
    /// other response gives its database.
    pub fn from_response(response: &Response) -> (r: Result<Database, Error>)
        ensures
            match r {
                Ok(database) => DatabaseView::outcome(response@) == Ok::<DatabaseView, ErrorView>(
                    database@,
                ),
                Err(e) => DatabaseView::outcome(response@) == Err::<DatabaseView, ErrorView>(e@),
            },
    {
        let json: Value = match response.document() {
            Ok(json) => json,
            Err(e) => return Err(e),
        };
        match Database::from_json(&json) {
            Some(database) => Ok(database),
            None => Err(Error::Decode { failure: DecodeFailure::Schema }),
        }
    }
}

/// One sort directive of a query: the property or the timestamp to sort
/// by, and the direction (`ascending` or `descending`).
#[derive(Debug, Clone, PartialEq, Eq)]
pub struct DatabaseSort {
    pub property: Option<String>,
    pub timestamp: Option<String>,
    pub direction: String,
}

/// The mathematical content of a [`DatabaseSort`].
pub struct DatabaseSortView {
    pub property: Option<Seq<char>>,
    pub timestamp: Option<Seq<char>>,
    pub direction: Seq<char>,
}

impl View for DatabaseSort {
    type V = DatabaseSortView;

    open spec fn view(&self) -> DatabaseSortView {
        DatabaseSortView {
            property: self.property.deep_view(),
            timestamp: self.timestamp.deep_view(),
            direction: self.direction@,
        }
    }
}

impl DeepView for DatabaseSort {
    type V = DatabaseSortView;

    open spec fn deep_view(&self) -> DatabaseSortView {
        self@
    }
}

impl DatabaseSortView {
    /// The document that stands for the directive: `property` and
    /// `timestamp` each where it holds a value, and `direction`.
    pub open spec fn to_json(self) -> JsonView {
        let members = with_optional(no_members(), "property"@, optional_string(self.property));
        let members = with_optional(members, "timestamp"@, optional_string(self.timestamp));
        let members = members.insert("direction"@, JsonView::String(self.direction));
        JsonView::Object(members)
    }

    /// The directive that a document stands for: the strings `property`
    /// and `timestamp` are optional, the string `direction` is required.
    /// `None` where the document does not fit.
    pub open spec fn from_json(json: JsonView) -> Option<DatabaseSortView> {
        match (
            json.optional_text("property"@),
            json.optional_text("timestamp"@),
            json.required_text("direction"@),
        ) {
            (Some(property), Some(timestamp), Some(direction)) => Some(
                DatabaseSortView { property, timestamp, direction },
            ),
            _ => None,
        }
    }
}

impl DatabaseSort {
    /// Writes the directive as a document.
    pub fn to_json(&self) -> (json: Value)
        ensures
            json_view(json) == self@.to_json(),
    {
        let mut members = serde_json::Map::new();
        put_optional_text(&mut members, "property", &self.property);
        put_optional_text(&mut members, "timestamp", &self.timestamp);
        put_text(&mut members, "direction", self.direction.as_str());
        Value::from(members)
    }

    /// Reads a directive from a document.
    pub fn from_json(json: &Value) -> (r: Option<DatabaseSort>)
        ensures
            r.deep_view() == DatabaseSortView::from_json(json_view(*json)),
    {
        let property: Option<String> = match optional_text(json, "property") {
            Some(text) => text,
            None => return None,
        };
        let timestamp: Option<String> = match optional_text(json, "timestamp") {
            Some(text) => text,
            None => return None,
        };
        let direction: String = match required_text(json, "direction") {
            Some(text) => text,
            None => return None,
        };
        Some(DatabaseSort { property, timestamp, direction })
    }
}

/// The documents of a sequence of sort directives, in order.
pub open spec fn sorts_to_json(sorts: Seq<DatabaseSortView>) -> Seq<JsonView> {
    Seq::new(sorts.len(), |i: int| sorts[i].to_json())
}

/// Writes every directive of a list as a document, in order.
fn sorts_to_items(sorts: &Vec<DatabaseSort>) -> (items: Vec<Value>)
    ensures
        array_view(items@) == sorts_to_json(sorts.deep_view()),
{
    let mut items: Vec<Value> = Vec::new();
    let mut i: usize = 0;
    while i < sorts.len()
        invariant
            i <= sorts.len(),
            items.len() == i,
            forall|k: int| 0 <= k < i ==> json_view(#[trigger] items@[k]) == sorts@[k]@.to_json(),
        decreases sorts.len() - i,
    {
        items.push(sorts[i].to_json());
        i += 1;
    }
    assert(array_view(items@) =~= sorts_to_json(sorts.deep_view()));
    items
}

/// What a query asks of a database. Every field is optional, and a field
/// without a value is left to the defaults of the service. The filter is
/// kept as JSON members: its grammar belongs to the service.
#[derive(Debug, Clone, PartialEq, Eq)]
pub struct DatabaseQuery {
    pub start_cursor: Option<String>,
    pub page_size: Option<i32>,
    pub filter: Option<serde_json::Map<String, Value>>,
    pub sorts: Option<Vec<DatabaseSort>>,
}

/// The mathematical content of a [`DatabaseQuery`].
pub struct DatabaseQueryView {
    pub start_cursor: Option<Seq<char>>,
    pub page_size: Option<i32>,
    pub filter: Option<Map<Seq<char>, JsonView>>,
    pub sorts: Option<Seq<DatabaseSortView>>,
}

impl View for DatabaseQuery {
    type V = DatabaseQueryView;

    open spec fn view(&self) -> DatabaseQueryView {
        DatabaseQueryView {
            start_cursor: self.start_cursor.deep_view(),
            page_size: self.page_size,
            filter: optional_object_view(self.filter),
            sorts: self.sorts.deep_view(),
        }
    }
}

impl DeepView for DatabaseQuery {
    type V = DatabaseQueryView;

    open spec fn deep_view(&self) -> DatabaseQueryView {
        self@
    }
}

/// The number document of an optional page size.
pub open spec fn optional_page_size(page_size: Option<i32>) -> Option<JsonView> {
    match page_size {
        Some(n) => Some(JsonView::Number(NumberView::Integer(n as int))),
        None => None,
    }
}

/// The array document of an optional list of sort directives.
pub open spec fn optional_sorts(sorts: Option<Seq<DatabaseSortView>>) -> Option<JsonView> {
    match sorts {
        Some(s) => Some(JsonView::Array(sorts_to_json(s))),
        None => None,
    }
}

impl DatabaseQueryView {
    /// The document that stands for the query in a request: each of
    /// `start_cursor`, `page_size`, `filter` and `sorts` is a member where
    /// it holds a value and is left out where it holds none.
    pub open spec fn to_json(self) -> JsonView {
        let members = with_optional(
            no_members(),
            "start_cursor"@,
            optional_string(self.start_cursor),
        );
        let members = with_optional(members, "page_size"@, optional_page_size(self.page_size));
        let members = with_optional(members, "filter"@, optional_object(self.filter));
        let members = with_optional(members, "sorts"@, optional_sorts(self.sorts));
        JsonView::Object(members)
    }
}

impl DatabaseQuery {
    /// Writes the query as the document that a request carries.
    pub fn to_json(&self) -> (json: Value)
        ensures
            json_view(json) == self@.to_json(),
    {
        let mut members = serde_json::Map::new();
        put_optional_text(&mut members, "start_cursor", &self.start_cursor);
        match self.page_size {
            Some(n) => put(&mut members, "page_size", Value::from(n)),
            None => {},
        }
        put_optional_members(&mut members, "filter", &self.filter);
        match &self.sorts {
            Some(sorts) => put(&mut members, "sorts", array_value(sorts_to_items(sorts))),
            None => {},
        }
        Value::from(members)
    }
}

/// One page of the pages that a query found, in the order of the service.
#[derive(Debug, Clone, PartialEq, Eq)]
pub struct Pages {
    pub object: String,
    pub next_cursor: Option<String>,
    pub has_more: bool,
    pub results: Vec<Page>,
}

/// The mathematical content of a [`Pages`].
pub struct PagesView {
    pub object: Seq<char>,
    pub next_cursor: Option<Seq<char>>,
    pub has_more: bool,
    pub results: Seq<PageView>,
}

impl View for Pages {
    type V = PagesView;

    open spec fn view(&self) -> PagesView {
        PagesView {
            object: self.object@,
            next_cursor: self.next_cursor.deep_view(),
            has_more: self.has_more,
            results: self.results.deep_view(),
        }
    }
}

impl PagesView {
    /// Whether the page ends consistently: without more results there is
    /// no cursor.
    pub open spec fn wf(self) -> bool {
        consistent(self.next_cursor, self.has_more)
    }

    /// The page of results that a document stands for: the string
    /// `object`, the array `results` of pages and a consistent end.
    /// `None` where the document does not fit.
    pub open spec fn from_json(json: JsonView) -> Option<PagesView> {
        match (
            json.required_text("object"@),
            continuation(json),
            json.required_items("results"@),
        ) {
            (Some(object), Some((next_cursor, has_more)), Some(items)) => match each_decoded(
                items,
                PageView::schema(),
            ) {
                Some(results) => Some(PagesView { object, next_cursor, has_more, results }),
                None => None,
            },
            _ => None,
        }
    }

    /// The schema of a page of results, as a function.
    pub open spec fn schema() -> spec_fn(JsonView) -> Option<PagesView> {
        |json: JsonView| Self::from_json(json)
    }

    /// What a response to a query amounts to.
    pub open spec fn outcome(response: ResponseView) -> Result<PagesView, ErrorView> {
        decoded(response.document(), Self::schema())
    }
}

/// Reads every element of an array as a page.
fn pages_from_items(items: &Vec<Value>) -> (r: Option<Vec<Page>>)
    ensures
        r.deep_view() == each_decoded(array_view(items@), PageView::schema()),
{
    let ghost documents = array_view(items@);
    let mut results: Vec<Page> = Vec::new();
    let mut i: usize = 0;
    while i < items.len()
        invariant
            i <= items.len(),
            results.len() == i,
            documents == array_view(items@),
            forall|k: int|
                0 <= k < i ==> (#[trigger] PageView::schema()(documents[k])) == Some(
                    results@[k]@,
                ),
        decreases items.len() - i,
    {
        match Page::from_json(&items[i]) {
            Some(page) => {
                results.push(page);
            },
            None => {
                assert(PageView::schema()(documents[i as int]) is None);
                return None;
            },
        }
        i += 1;
    }
    assert(results.deep_view() =~= each_decoded(documents, PageView::schema())->0);
    Some(results)
}

impl Pages {
    /// Reads a page of results from a document.
    pub fn from_json(json: &Value) -> (r: Option<Pages>)
        ensures
            match r {
                Some(page) => PagesView::from_json(json_view(*json)) == Some(page@),
                None => PagesView::from_json(json_view(*json)) is None,
            },
            r matches Some(page) ==> page@.wf(),
    {
        let object: String = match required_text(json, "object") {
            Some(text) => text,
            None => return None,
        };
        let (next_cursor, has_more): (Option<String>, bool) = match read_continuation(json) {
            Some(end) => end,
            None => return None,
        };
        let items: &Vec<Value> = match required_items(json, "results") {
            Some(items) => items,
            None => return None,
        };
        let results: Vec<Page> = match pages_from_items(items) {
            Some(results) => results,
            None => return None,
        };
        Some(Pages { object, next_cursor, has_more, results })
    }

    /// Interprets the response to [`Client::query_database`]: a status
    /// other than success is a rejection with the status and the body
    /// text, a body that is no JSON or no page of results a decode
    /// failure, and every other response gives its page.
    pub fn from_response(response: &Response) -> (r: Result<Pages, Error>)
        ensures
            match r {
                Ok(page) => PagesView::outcome(response@) == Ok::<PagesView, ErrorView>(page@),
                Err(e) => PagesView::outcome(response@) == Err::<PagesView, ErrorView>(e@),
            },
            r matches Ok(page) ==> page@.wf(),
    {
        let json: Value = match response.document() {
            Ok(json) => json,
            Err(e) => return Err(e),
        };
        match Pages::from_json(&json) {
            Some(page) => Ok(page),
            None => Err(Error::Decode { failure: DecodeFailure::Schema }),
        }
    }
}

/// The path of the database `id`.
pub open spec fn database_path(id: Seq<char>) -> Seq<char> {
    "/databases/"@ + id
}

/// The path under which the database `id` is queried.
pub open spec fn database_query_path(id: Seq<char>) -> Seq<char> {
    "/databases/"@ + id + "/query"@
}

impl RequestView {
    /// The request with the query as its JSON body where there is one,
    /// and without a body where there is none.
    pub open spec fn with_optional_query_body(self, query: Option<DatabaseQueryView>)
        -> RequestView {
        match query {
            Some(q) => self.with_json(q.to_json()),
            None => self,
        }
    }
}

impl Client {
    /// Composes the request that queries the database `id`. The query,
    /// where there is one, travels as the JSON body; without one no body
    /// is sent. Its response is read by [`Pages::from_response`].
    pub fn query_database(&self, id: String, query: Option<DatabaseQuery>) -> (r: Request)
        ensures
            r@ == self@.request(
                Method::Post,
                database_query_path(id@),
            ).with_optional_query_body(query.deep_view()),
            self@.signs(r@),
    {
        let path: String = join("/databases/", id.as_str());
        let path: String = join(path.as_str(), "/query");
        let request: Request = self.build_request(Method::Post, path.as_str());
        match query {
            Some(q) => {
                let body: Value = q.to_json();
                request.with_json(&body)
            },
            None => request,
        }
    }

    /// Updating a database is not wired to the service: the call
    /// succeeds and composes no request.
    pub fn update_database(&self, id: String) -> (r: Result<(), Error>)
        ensures
            r is Ok,
    {
        let _ = id;
        Ok(())
    }

    /// Creating a database is not wired to the service: the call
    /// succeeds and composes no request.
    pub fn create_database(&self) -> (r: Result<(), Error>)
        ensures
            r is Ok,
    {
        Ok(())
    }

    /// Composes the request that retrieves the database `id`; its
    /// response is read by [`Database::from_response`].
    pub fn get_database(&self, id: String) -> (r: Request)
        ensures
            r@ == self@.request(Method::Get, database_path(id@)),
            self@.signs(r@),
    {
        let path: String = join("/databases/", id.as_str());
        self.build_request(Method::Get, path.as_str())
    }
}

/// Every page of results that is read from a document ends consistently:
/// where it reports no more results it holds no cursor.
pub proof fn lemma_results_page_is_consistent(json: JsonView)
    ensures
        PagesView::from_json(json) matches Some(page) ==> (!page.has_more ==> page.next_cursor is None),
{
}

/// Writing a sort directive and reading it back gives the same
/// directive.
pub proof fn lemma_sort_round_trip(sort: DatabaseSortView)
    ensures
        DatabaseSortView::from_json(sort.to_json()) == Some(sort),
{
    reveal_strlit("property");
    reveal_strlit("timestamp");
    reveal_strlit("direction");
    assert("property"@.len() == 8);
    assert("timestamp"@.len() == 9);
    assert("direction"@.len() == 9);
    assert("timestamp"@[0] != "direction"@[0]);
}

/// The document of a query holds a member for a field exactly where the
/// field holds a value: a field without a value is left out and none is
/// written as `null`.
pub proof fn lemma_query_omits_absent_fields(query: DatabaseQueryView)
    ensures
        query.to_json().member("start_cursor"@) is Some <==> query.start_cursor is Some,
        query.to_json().member("page_size"@) is Some <==> query.page_size is Some,
        query.to_json().member("filter"@) is Some <==> query.filter is Some,
        query.to_json().member("sorts"@) is Some <==> query.sorts is Some,
        query.to_json().member("start_cursor"@) != Some(JsonView::Null),
        query.to_json().member("page_size"@) != Some(JsonView::Null),
        query.to_json().member("filter"@) != Some(JsonView::Null),
        query.to_json().member("sorts"@) != Some(JsonView::Null),
        query.filter matches Some(filter) ==> query.to_json().member("filter"@) == Some(
            JsonView::Object(filter),
        ),
{
    reveal_strlit("start_cursor");
    reveal_strlit("page_size");
    reveal_strlit("filter");
    reveal_strlit("sorts");
    assert("start_cursor"@.len() == 12);
    assert("page_size"@.len() == 9);
    assert("filter"@.len() == 6);
    assert("sorts"@.len() == 5);
}

} // verus!
