//! Pages and the parents they hang under.

use serde_json::Value;
use vstd::prelude::*;
use crate::client::Client;
use crate::common::{
    lemma_file_round_trip, lemma_icon_round_trip, File, FileView, Icon, IconView,
};
use crate::error::{DecodeFailure, Error, ErrorView};
use crate::http::{decoded, Method, Request, Response, ResponseView};
use crate::json::{
    field, json_view, lemma_null_reads_as_absent, lemma_readers_ignore_other_members, no_members,
    optional_bool, optional_flag, optional_members, optional_object, optional_object_view,
    optional_string, optional_text, put, put_flag, put_optional_flag, put_optional_members,
    put_optional_text, put_text, required_flag, required_text, with_optional, JsonView,
};
use crate::text::join;

verus! {

/// The discriminant of a parent that is a database.
pub const PARENT_DATABASE: &'static str = "database_id";

/// The discriminant of a parent that is a page.
pub const PARENT_PAGE: &'static str = "page_id";

/// The discriminant of a parent that is the workspace.
pub const PARENT_WORKSPACE: &'static str = "workspace";

/// What a page or database hangs under: a database, a page or the
/// workspace. `parent_type` says which, and of the other three fields only
/// the one that belongs to it holds a value.
#[derive(Debug, Clone, PartialEq, Eq)]
pub struct Parent {
    pub parent_type: String,
    pub database_id: Option<String>,
    pub page_id: Option<String>,
    pub workspace: Option<bool>,
}

/// The mathematical content of a [`Parent`].
pub struct ParentView {
    pub parent_type: Seq<char>,
    pub database_id: Option<Seq<char>>,
    pub page_id: Option<Seq<char>>,
    pub workspace: Option<bool>,
}

impl View for Parent {
    type V = ParentView;

    open spec fn view(&self) -> ParentView {
        ParentView {
            parent_type: self.parent_type@,
            database_id: self.database_id.deep_view(),
            page_id: self.page_id.deep_view(),
            workspace: self.workspace,
        }
    }
}

impl DeepView for Parent {
    type V = ParentView;

    open spec fn deep_view(&self) -> ParentView {
        self@
    }
}

impl ParentView {
    /// The parent that is the database `database_id`.
    pub open spec fn database(database_id: Seq<char>) -> ParentView {
        ParentView {
            parent_type: PARENT_DATABASE@,
            database_id: Some(database_id),
            page_id: None,
            workspace: None,
        }
    }

    /// The parent that is the page `page_id`.
    pub open spec fn page(page_id: Seq<char>) -> ParentView {
        ParentView {
            parent_type: PARENT_PAGE@,
            database_id: None,
            page_id: Some(page_id),
            workspace: None,
        }
    }

    /// The parent that is the workspace.
    pub open spec fn workspace() -> ParentView {
        ParentView {
            parent_type: PARENT_WORKSPACE@,
            database_id: None,
            page_id: None,
            workspace: Some(true),
        }
    }

    /// Whether the parent is one of the three variants: the discriminant
    /// names a variant and only that variant's field holds a value.
    pub open spec fn wf(self) -> bool {
        ||| self.database_id is Some && self == Self::database(self.database_id->0)
        ||| self.page_id is Some && self == Self::page(self.page_id->0)
        ||| self == Self::workspace()
    }

    /// The document that stands for the parent on the wire: the
    /// discriminant under `type`, and each other field under its own name
    /// where it holds a value; a field without a value is left out.
    pub open spec fn to_json(self) -> JsonView {
        let members = no_members().insert("type"@, JsonView::String(self.parent_type));
        let members = with_optional(members, "database_id"@, optional_string(self.database_id));
        let members = with_optional(members, "page_id"@, optional_string(self.page_id));
        let members = with_optional(members, "workspace"@, optional_bool(self.workspace));
        JsonView::Object(members)
    }

    /// The schema of a parent, as a function.
    pub open spec fn schema() -> spec_fn(JsonView) -> Option<ParentView> {
        |json: JsonView| Self::from_json(json)
    }

    /// The parent that a document stands for: `type` is required and a
    /// string, the other three are optional; members of other names are
    /// ignored. `None` where the document does not fit.
    pub open spec fn from_json(json: JsonView) -> Option<ParentView> {
        match (
            json.required_text("type"@),
            json.optional_text("database_id"@),
            json.optional_text("page_id"@),
            json.optional_flag("workspace"@),
        ) {
            (Some(parent_type), Some(database_id), Some(page_id), Some(workspace)) => Some(
                ParentView { parent_type, database_id, page_id, workspace },
            ),
            _ => None,
        }
    }
}

impl Parent {
    /// The parent that is the database `database_id`.
    pub fn new_database_parent(database_id: String) -> (parent: Self)
        ensures
            parent@ == ParentView::database(database_id@),
            parent@.wf(),
    {
        Self {
            parent_type: PARENT_DATABASE.to_owned(),
            database_id: Some(database_id),
            page_id: None,
            workspace: None,
        }
    }

    /// The parent that is the page `page_id`.
    pub fn new_page_parent(page_id: String) -> (parent: Self)
        ensures
            parent@ == ParentView::page(page_id@),
            parent@.wf(),
    {
        Self {
            parent_type: PARENT_PAGE.to_owned(),
            database_id: None,
            page_id: Some(page_id),
            workspace: None,
        }
    }

    /// The parent that is the workspace.
    pub fn new_workspace_parent() -> (parent: Self)
        ensures
            parent@ == ParentView::workspace(),
            parent@.wf(),
    {
        Self {
            parent_type: PARENT_WORKSPACE.to_owned(),
            database_id: None,
            page_id: None,
            workspace: Some(true),
        }
    }

    /// Writes the parent as a document.
    pub fn to_json(&self) -> (json: Value)
        ensures
            json_view(json) == self@.to_json(),
    {
        let mut members = serde_json::Map::new();
        put_text(&mut members, "type", self.parent_type.as_str());
        put_optional_text(&mut members, "database_id", &self.database_id);
        put_optional_text(&mut members, "page_id", &self.page_id);
        put_optional_flag(&mut members, "workspace", self.workspace);
        Value::from(members)
    }

    /// Reads a parent from a document.
    pub fn from_json(json: &Value) -> (r: Option<Parent>)
        ensures
            r.deep_view() == ParentView::from_json(json_view(*json)),
    {
        let parent_type: String = match required_text(json, "type") {
            Some(text) => text,
            None => return None,
        };
        let database_id: Option<String> = match optional_text(json, "database_id") {
            Some(text) => text,
            None => return None,
        };
        let page_id: Option<String> = match optional_text(json, "page_id") {
            Some(text) => text,
            None => return None,
        };
        let workspace: Option<bool> = match optional_flag(json, "workspace") {
            Some(flag) => flag,
            None => return None,
        };
        Some(Parent { parent_type, database_id, page_id, workspace })
    }
}

/// The four member names of a parent differ from one another.
pub proof fn lemma_parent_keys_differ()
    ensures
        "type"@ != "database_id"@,
        "type"@ != "page_id"@,
        "type"@ != "workspace"@,
        "database_id"@ != "page_id"@,
        "database_id"@ != "workspace"@,
        "page_id"@ != "workspace"@,
{
    reveal_strlit("type");
    reveal_strlit("database_id");
    reveal_strlit("page_id");
    reveal_strlit("workspace");
    assert("type"@.len() == 4);
    assert("database_id"@.len() == 11);
    assert("page_id"@.len() == 7);
    assert("workspace"@.len() == 9);
}

/// Writing a parent and reading it back gives the same parent.
pub proof fn lemma_parent_round_trip(parent: ParentView)
    ensures
        ParentView::from_json(parent.to_json()) == Some(parent),
{
    lemma_parent_keys_differ();
}

/// The parent of a database, written and read back, names the database
/// under the discriminant `database_id` and holds neither a page nor the
/// workspace.
pub proof fn lemma_database_parent_round_trip(database_id: Seq<char>)
    ensures
        ParentView::from_json(ParentView::database(database_id).to_json()) == Some(
            ParentView {
                parent_type: "database_id"@,
                database_id: Some(database_id),
                page_id: None,
                workspace: None,
            },
        ),
{
    lemma_parent_round_trip(ParentView::database(database_id));
}

/// One page as the service reports it. The properties are kept as the
/// JSON members that the service sent.
#[derive(Debug, Clone, PartialEq, Eq)]
pub struct Page {
    pub object: String,
    pub id: String,
    pub created_time: String,
    pub last_edited_time: String,
    pub archived: bool,
    pub icon: Option<Icon>,
    pub cover: Option<File>,
    pub url: String,
    pub parent: Option<Parent>,
    pub properties: Option<serde_json::Map<String, Value>>,
}

/// The mathematical content of a [`Page`].
pub struct PageView {
    pub object: Seq<char>,
    pub id: Seq<char>,
    pub created_time: Seq<char>,
    pub last_edited_time: Seq<char>,
    pub archived: bool,
    pub icon: Option<IconView>,
    pub cover: Option<FileView>,
    pub url: Seq<char>,
    pub parent: Option<ParentView>,
    pub properties: Option<Map<Seq<char>, JsonView>>,
}

impl View for Page {
    type V = PageView;

    open spec fn view(&self) -> PageView {
        PageView {
            object: self.object@,
            id: self.id@,
            created_time: self.created_time@,
            last_edited_time: self.last_edited_time@,
            archived: self.archived,
            icon: self.icon.deep_view(),
            cover: self.cover.deep_view(),
            url: self.url@,
            parent: self.parent.deep_view(),
            properties: optional_object_view(self.properties),
        }
    }
}

impl DeepView for Page {
    type V = PageView;

    open spec fn deep_view(&self) -> PageView {
        self@
    }
}

/// The document of an optional icon.
pub open spec fn optional_icon(icon: Option<IconView>) -> Option<JsonView> {
    match icon {
        Some(i) => Some(i.to_json()),
        None => None,
    }
}

/// The document of an optional file.
pub open spec fn optional_file(file: Option<FileView>) -> Option<JsonView> {
    match file {
        Some(f) => Some(f.to_json()),
        None => None,
    }
}

/// The document of an optional parent.
pub open spec fn optional_parent(parent: Option<ParentView>) -> Option<JsonView> {
    match parent {
        Some(p) => Some(p.to_json()),
        None => None,
    }
}

impl PageView {
    /// The page that a document stands for: the strings `object`, `id`,
    /// `created_time`, `last_edited_time` and `url` and the boolean
    /// `archived` are required; the icon `icon`, the file `cover`, the
    /// parent `parent` and the object `properties` are optional; members
    /// of other names are ignored. `None` where the document does not fit.
    pub open spec fn from_json(json: JsonView) -> Option<PageView> {
        match (
            json.required_text("object"@),
            json.required_text("id"@),
            json.required_text("created_time"@),
            json.required_text("last_edited_time"@),
            json.required_flag("archived"@),
            json.optional_nested("icon"@, IconView::schema()),
            json.optional_nested("cover"@, FileView::schema()),
            json.required_text("url"@),
            json.optional_nested("parent"@, ParentView::schema()),
            json.optional_members("properties"@),
        ) {
            (
                Some(object),
                Some(id),
                Some(created_time),
                Some(last_edited_time),
                Some(archived),
                Some(icon),
                Some(cover),
                Some(url),
                Some(parent),
                Some(properties),
            ) => Some(
                PageView {
                    object,
                    id,
                    created_time,
                    last_edited_time,
                    archived,
                    icon,
                    cover,
                    url,
                    parent,
                    properties,
                },
            ),
            _ => None,
        }
    }

    /// The schema of a page, as a function.
    pub open spec fn schema() -> spec_fn(JsonView) -> Option<PageView> {
        |json: JsonView| Self::from_json(json)
    }

    /// What a response to a request for one page amounts to.
    pub open spec fn outcome(response: ResponseView) -> Result<PageView, ErrorView> {
        decoded(response.document(), Self::schema())
    }

    /// The document that stands for the page in a request: every required
    /// field under its name, and each optional field under its name where
    /// it holds a value; a field without a value is left out, never
    /// written as `null`.
    pub open spec fn to_json(self) -> JsonView {
        let members = no_members().insert("object"@, JsonView::String(self.object));
        let members = members.insert("id"@, JsonView::String(self.id));
        let members = members.insert("created_time"@, JsonView::String(self.created_time));
        let members = members.insert(
            "last_edited_time"@,
            JsonView::String(self.last_edited_time),
        );
        let members = members.insert("archived"@, JsonView::Bool(self.archived));
        let members = with_optional(members, "icon"@, optional_icon(self.icon));
        let members = with_optional(members, "cover"@, optional_file(self.cover));
        let members = members.insert("url"@, JsonView::String(self.url));
        let members = with_optional(members, "parent"@, optional_parent(self.parent));
        let members = with_optional(members, "properties"@, optional_object(self.properties));
        JsonView::Object(members)
    }
}

impl Page {
    /// Reads a page from a document.
    pub fn from_json(json: &Value) -> (r: Option<Page>)
        ensures
            r.deep_view() == PageView::from_json(json_view(*json)),
    {
        let object: String = match required_text(json, "object") {
            Some(text) => text,
            None => return None,
        };
        let id: String = match required_text(json, "id") {
            Some(text) => text,
            None => return None,
        };
        let created_time: String = match required_text(json, "created_time") {
            Some(text) => text,
            None => return None,
        };
        let last_edited_time: String = match required_text(json, "last_edited_time") {
            Some(text) => text,
            None => return None,
        };
        let archived: bool = match required_flag(json, "archived") {
            Some(flag) => flag,
            None => return None,
        };
        let icon: Option<Icon> = match field(json, "icon") {
            Some(found) => match Icon::from_json(found) {
                Some(icon) => Some(icon),
                None => return None,
            },
            None => None,
        };
        let cover: Option<File> = match field(json, "cover") {
            Some(found) => match File::from_json(found) {
                Some(file) => Some(file),
                None => return None,
            },
            None => None,
        };
        let url: String = match required_text(json, "url") {
            Some(text) => text,
            None => return None,
        };
        let parent: Option<Parent> = match field(json, "parent") {
            Some(found) => match Parent::from_json(found) {
                Some(parent) => Some(parent),
                None => return None,
            },
            None => None,
        };
        let properties: Option<serde_json::Map<String, Value>> = match optional_members(
            json,
            "properties",
        ) {
            Some(members) => members,
            None => return None,
        };
        Some(
            Page {
                object,
                id,
                created_time,
                last_edited_time,
                archived,
                icon,
                cover,
                url,
                parent,
                properties,
            },
        )
    }

    /// Writes the page as the document that a request carries.
    pub fn to_json(&self) -> (json: Value)
        ensures
            json_view(json) == self@.to_json(),
    {
        let mut members = serde_json::Map::new();
        put_text(&mut members, "object", self.object.as_str());
        put_text(&mut members, "id", self.id.as_str());
        put_text(&mut members, "created_time", self.created_time.as_str());
        put_text(&mut members, "last_edited_time", self.last_edited_time.as_str());
        put_flag(&mut members, "archived", self.archived);
        match &self.icon {
            Some(icon) => put(&mut members, "icon", icon.to_json()),
            None => {},
        }
        match &self.cover {
            Some(cover) => put(&mut members, "cover", cover.to_json()),
            None => {},
        }
        put_text(&mut members, "url", self.url.as_str());
        match &self.parent {
            Some(parent) => put(&mut members, "parent", parent.to_json()),
            None => {},
        }
        put_optional_members(&mut members, "properties", &self.properties);
        Value::from(members)
    }

    /// Interprets the response to [`Client::get_page`]: a status other
    /// than success is a rejection with the status and the body text, a
    /// body that is no JSON or no page a decode failure, and every other
    /// response gives its page.
    pub fn from_response(response: &Response) -> (r: Result<Page, Error>)
        ensures
            match r {
                Ok(page) => PageView::outcome(response@) == Ok::<PageView, ErrorView>(page@),
                Err(e) => PageView::outcome(response@) == Err::<PageView, ErrorView>(e@),
            },
    {
        let json: Value = match response.document() {
            Ok(json) => json,
            Err(e) => return Err(e),
        };
        match Page::from_json(&json) {
            Some(page) => Ok(page),
            None => Err(Error::Decode { failure: DecodeFailure::Schema }),
        }
    }
}

/// The path of the page `id`.
pub open spec fn page_path(id: Seq<char>) -> Seq<char> {
    "/pages/"@ + id
}

impl Client {
    /// Composes the request that retrieves the page `id`; its response is
    /// read by [`Page::from_response`].
    pub fn get_page(&self, id: &str) -> (r: Request)
        ensures
            r@ == self@.request(Method::Get, page_path(id@)),
            self@.signs(r@),
    {
        let path: String = join("/pages/", id);
        self.build_request(Method::Get, path.as_str())
    }

    /// Creating a page is not wired to the service: the call succeeds and
    /// composes no request.
    pub fn create_page(&self) -> (r: Result<(), Error>)
        ensures
            r is Ok,
    {
        Ok(())
    }

    /// Composes the request that updates the page `id` with the fields of
    /// `page`, which travel as the JSON body. Its response is read by
    /// [`Response::acknowledged`].
    pub fn update_page(&self, id: &str, page: Page) -> (r: Request)
        ensures
            r@ == self@.request(Method::Patch, page_path(id@)).with_json(page@.to_json()),
            self@.signs(r@),
    {
        let path: String = join("/pages/", id);
        let body: Value = page.to_json();
        self.build_request(Method::Patch, path.as_str()).with_json(&body)
    }
}

/// The ten member names of a page differ from one another.
pub proof fn lemma_page_keys_differ()
    ensures
        "object"@ != "id"@,
        "object"@ != "created_time"@,
        "object"@ != "last_edited_time"@,
        "object"@ != "archived"@,
        "object"@ != "icon"@,
        "object"@ != "cover"@,
        "object"@ != "url"@,
        "object"@ != "parent"@,
        "object"@ != "properties"@,
        "id"@ != "created_time"@,
        "id"@ != "last_edited_time"@,
        "id"@ != "archived"@,
        "id"@ != "icon"@,
        "id"@ != "cover"@,
        "id"@ != "url"@,
        "id"@ != "parent"@,
        "id"@ != "properties"@,
        "created_time"@ != "last_edited_time"@,
        "created_time"@ != "archived"@,
        "created_time"@ != "icon"@,
        "created_time"@ != "cover"@,
        "created_time"@ != "url"@,
        "created_time"@ != "parent"@,
        "created_time"@ != "properties"@,
        "last_edited_time"@ != "archived"@,
        "last_edited_time"@ != "icon"@,
        "last_edited_time"@ != "cover"@,
        "last_edited_time"@ != "url"@,
        "last_edited_time"@ != "parent"@,
        "last_edited_time"@ != "properties"@,
        "archived"@ != "icon"@,
        "archived"@ != "cover"@,
        "archived"@ != "url"@,
        "archived"@ != "parent"@,
        "archived"@ != "properties"@,
        "icon"@ != "cover"@,
        "icon"@ != "url"@,
        "icon"@ != "parent"@,
        "icon"@ != "properties"@,
        "cover"@ != "url"@,
        "cover"@ != "parent"@,
        "cover"@ != "properties"@,
        "url"@ != "parent"@,
        "url"@ != "properties"@,
        "parent"@ != "properties"@,
{
    reveal_strlit("object");
    reveal_strlit("id");
    reveal_strlit("created_time");
    reveal_strlit("last_edited_time");
    reveal_strlit("archived");
    reveal_strlit("icon");
    reveal_strlit("cover");
    reveal_strlit("url");
    reveal_strlit("parent");
    reveal_strlit("properties");
    assert("object"@.len() == 6);
    assert("id"@.len() == 2);
    assert("created_time"@.len() == 12);
    assert("last_edited_time"@.len() == 16);
    assert("archived"@.len() == 8);
    assert("icon"@.len() == 4);
    assert("cover"@.len() == 5);
    assert("url"@.len() == 3);
    assert("parent"@.len() == 6);
    assert("properties"@.len() == 10);
    assert("object"@[0] != "parent"@[0]);
}

/// Writing a page and reading it back gives the same page.
pub proof fn lemma_page_round_trip(page: PageView)
    ensures
        PageView::from_json(page.to_json()) == Some(page),
{
    lemma_page_keys_differ();
    if page.icon is Some {
        lemma_icon_round_trip(page.icon->0);
    }
    if page.cover is Some {
        lemma_file_round_trip(page.cover->0);
    }
    if page.parent is Some {
        lemma_parent_round_trip(page.parent->0);
    }
}

/// The document of a page holds a member for an optional field exactly
/// where the field holds a value: a field without a value is left out and
/// none is written as `null`.
pub proof fn lemma_page_omits_absent_fields(page: PageView)
    ensures
        page.to_json().member("icon"@) is Some <==> page.icon is Some,
        page.to_json().member("cover"@) is Some <==> page.cover is Some,
        page.to_json().member("parent"@) is Some <==> page.parent is Some,
        page.to_json().member("properties"@) is Some <==> page.properties is Some,
        page.to_json().member("icon"@) != Some(JsonView::Null),
        page.to_json().member("cover"@) != Some(JsonView::Null),
        page.to_json().member("parent"@) != Some(JsonView::Null),
        page.to_json().member("properties"@) != Some(JsonView::Null),
{
    lemma_page_keys_differ();
}

/// A parent reads the same whether a field without a value is written as
/// `null` or left out.
pub proof fn lemma_parent_reads_null_as_absent(members: Map<Seq<char>, JsonView>)
    ensures
        ParentView::from_json(JsonView::Object(members.insert("page_id"@, JsonView::Null)))
            == ParentView::from_json(JsonView::Object(members.remove("page_id"@))),
        ParentView::from_json(JsonView::Object(members.insert("database_id"@, JsonView::Null)))
            == ParentView::from_json(JsonView::Object(members.remove("database_id"@))),
        ParentView::from_json(JsonView::Object(members.insert("workspace"@, JsonView::Null)))
            == ParentView::from_json(JsonView::Object(members.remove("workspace"@))),
{
    lemma_parent_keys_differ();
    lemma_null_reads_as_absent(members, "page_id"@);
    lemma_null_reads_as_absent(members, "database_id"@);
    lemma_null_reads_as_absent(members, "workspace"@);
}

/// Whether a name is none of the member names of a page.
pub open spec fn is_unknown_to_page(name: Seq<char>) -> bool {
    &&& name != "object"@
    &&& name != "id"@
    &&& name != "created_time"@
    &&& name != "last_edited_time"@
    &&& name != "archived"@
    &&& name != "icon"@
    &&& name != "cover"@
    &&& name != "url"@
    &&& name != "parent"@
    &&& name != "properties"@
}

/// A member of a name that is unknown to the schema of a page changes
/// nothing of the page that is read.
pub proof fn lemma_page_ignores_unknown_members(
    members: Map<Seq<char>, JsonView>,
    name: Seq<char>,
    value: JsonView,
)
    requires
        is_unknown_to_page(name),
    ensures
        PageView::from_json(JsonView::Object(members.insert(name, value))) == PageView::from_json(
            JsonView::Object(members),
        ),
{
    lemma_readers_ignore_other_members(members, "object"@, name, value);
    lemma_readers_ignore_other_members(members, "id"@, name, value);
    lemma_readers_ignore_other_members(members, "created_time"@, name, value);
    lemma_readers_ignore_other_members(members, "last_edited_time"@, name, value);
    lemma_readers_ignore_other_members(members, "archived"@, name, value);
    lemma_readers_ignore_other_members(members, "icon"@, name, value);
    lemma_readers_ignore_other_members(members, "cover"@, name, value);
    lemma_readers_ignore_other_members(members, "url"@, name, value);
    lemma_readers_ignore_other_members(members, "parent"@, name, value);
    lemma_readers_ignore_other_members(members, "properties"@, name, value);
}

} // verus!
