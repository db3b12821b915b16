//! Value objects shared by pages and databases: files, icons and rich
//! text.

use serde_json::Value;
use vstd::prelude::*;
use crate::json::{
    field, json_view, no_members, object_view, optional_string, optional_text, put,
    put_optional_text, put_text, required_text, with_optional, JsonView,
};

verus! {

/// Where a file is kept: its address and, for a file that the service
/// hosts, the time at which the address expires.
#[derive(Debug, Clone, PartialEq, Eq)]
pub struct FileLink {
    pub url: String,
    pub expiry_time: Option<String>,
}

/// The mathematical content of a [`FileLink`].
pub struct FileLinkView {
    pub url: Seq<char>,
    pub expiry_time: Option<Seq<char>>,
}

impl View for FileLink {
    type V = FileLinkView;

    open spec fn view(&self) -> FileLinkView {
        FileLinkView { url: self.url@, expiry_time: self.expiry_time.deep_view() }
    }
}

impl DeepView for FileLink {
    type V = FileLinkView;

    open spec fn deep_view(&self) -> FileLinkView {
        self@
    }
}

impl FileLinkView {
    /// The link that a document stands for: the string `url` is required,
    /// the string `expiry_time` optional. `None` where the document does
    /// not fit.
    pub open spec fn from_json(json: JsonView) -> Option<FileLinkView> {
        match (json.required_text("url"@), json.optional_text("expiry_time"@)) {
            (Some(url), Some(expiry_time)) => Some(FileLinkView { url, expiry_time }),
            _ => None,
        }
    }

    /// The schema of a link, as a function.
    pub open spec fn schema() -> spec_fn(JsonView) -> Option<FileLinkView> {
        |json: JsonView| Self::from_json(json)
    }

    /// The document that stands for the link; an expiry time that is not
    /// there is left out.
    pub open spec fn to_json(self) -> JsonView {
        let members = no_members().insert("url"@, JsonView::String(self.url));
        let members = with_optional(members, "expiry_time"@, optional_string(self.expiry_time));
        JsonView::Object(members)
    }
}

/// The document of an optional link.
pub open spec fn optional_link(link: Option<FileLinkView>) -> Option<JsonView> {
    match link {
        Some(l) => Some(l.to_json()),
        None => None,
    }
}

impl FileLink {
    /// Reads a link from a document.
    pub fn from_json(json: &Value) -> (r: Option<FileLink>)
        ensures
            r.deep_view() == FileLinkView::from_json(json_view(*json)),
    {
        let url: String = match required_text(json, "url") {
            Some(text) => text,
            None => return None,
        };
        let expiry_time: Option<String> = match optional_text(json, "expiry_time") {
            Some(text) => text,
            None => return None,
        };
        Some(FileLink { url, expiry_time })
    }

    /// Writes the link as a document.
    pub fn to_json(&self) -> (json: Value)
        ensures
            json_view(json) == self@.to_json(),
    {
        let mut members = serde_json::Map::new();
        put_text(&mut members, "url", self.url.as_str());
        put_optional_text(&mut members, "expiry_time", &self.expiry_time);
        Value::from(members)
    }
}

/// Reads an optional link member; the outer `None` reports a member that
/// is no link.
fn read_optional_link(json: &Value, key: &str) -> (r: Option<Option<FileLink>>)
    ensures
        r.deep_view() == json_view(*json).optional_nested(key@, FileLinkView::schema()),
{
    match field(json, key) {
        Some(found) => match FileLink::from_json(found) {
            Some(link) => Some(Some(link)),
            None => None,
        },
        None => Some(None),
    }
}

/// Stores a link under `key` where there is one.
fn put_optional_link(
    members: &mut serde_json::Map<String, Value>,
    key: &str,
    link: &Option<FileLink>,
)
    ensures
        object_view(*final(members)) == with_optional(
            object_view(*old(members)),
            key@,
            optional_link(link.deep_view()),
        ),
{
    match link {
        Some(l) => put(members, key, l.to_json()),
        None => {},
    }
}

/// A file: one kept elsewhere (`external`) or one that the service hosts
/// (`file`). `file_type` says which, and only the link that belongs to it
/// holds a value.
#[derive(Debug, Clone, PartialEq, Eq)]
pub struct File {
    pub file_type: String,
    pub external: Option<FileLink>,
    pub file: Option<FileLink>,
}

/// The mathematical content of a [`File`].
pub struct FileView {
    pub file_type: Seq<char>,
    pub external: Option<FileLinkView>,
    pub file: Option<FileLinkView>,
}

impl View for File {
    type V = FileView;

    open spec fn view(&self) -> FileView {
        FileView {
            file_type: self.file_type@,
            external: self.external.deep_view(),
            file: self.file.deep_view(),
        }
    }
}

impl DeepView for File {
    type V = FileView;

    open spec fn deep_view(&self) -> FileView {
        self@
    }
}

impl FileView {
    /// The file that a document stands for: the string `type` is
    /// required, the links `external` and `file` are optional. `None`
    /// where the document does not fit.
    pub open spec fn from_json(json: JsonView) -> Option<FileView> {
        match (
            json.required_text("type"@),
            json.optional_nested("external"@, FileLinkView::schema()),
            json.optional_nested("file"@, FileLinkView::schema()),
        ) {
            (Some(file_type), Some(external), Some(file)) => Some(
                FileView { file_type, external, file },
            ),
            _ => None,
        }
    }

    /// The schema of a file, as a function.
    pub open spec fn schema() -> spec_fn(JsonView) -> Option<FileView> {
        |json: JsonView| Self::from_json(json)
    }

    /// The document that stands for the file; a link that is not there is
    /// left out.
    pub open spec fn to_json(self) -> JsonView {
        let members = no_members().insert("type"@, JsonView::String(self.file_type));
        let members = with_optional(members, "external"@, optional_link(self.external));
        let members = with_optional(members, "file"@, optional_link(self.file));
        JsonView::Object(members)
    }
}

impl File {
    /// Reads a file from a document.
    pub fn from_json(json: &Value) -> (r: Option<File>)
        ensures
            r.deep_view() == FileView::from_json(json_view(*json)),
    {
        let file_type: String = match required_text(json, "type") {
            Some(text) => text,
            None => return None,
        };
        let external: Option<FileLink> = match read_optional_link(json, "external") {
            Some(link) => link,
            None => return None,
        };
        let file: Option<FileLink> = match read_optional_link(json, "file") {
            Some(link) => link,
            None => return None,
        };
        Some(File { file_type, external, file })
    }

    /// Writes the file as a document.
    pub fn to_json(&self) -> (json: Value)
        ensures
            json_view(json) == self@.to_json(),
    {
        let mut members = serde_json::Map::new();
        put_text(&mut members, "type", self.file_type.as_str());
        put_optional_link(&mut members, "external", &self.external);
        put_optional_link(&mut members, "file", &self.file);
        Value::from(members)
    }
}

/// An icon: an emoji or a file. `icon_type` says which (`emoji`,
/// `external` or `file`), and only the field that belongs to it holds a
/// value.
#[derive(Debug, Clone, PartialEq, Eq)]
pub struct Icon {
    pub icon_type: String,
    pub emoji: Option<String>,
    pub external: Option<FileLink>,
    pub file: Option<FileLink>,
}

/// The mathematical content of an [`Icon`].
pub struct IconView {
    pub icon_type: Seq<char>,
    pub emoji: Option<Seq<char>>,
    pub external: Option<FileLinkView>,
    pub file: Option<FileLinkView>,
}

impl View for Icon {
    type V = IconView;

    open spec fn view(&self) -> IconView {
        IconView {
            icon_type: self.icon_type@,
            emoji: self.emoji.deep_view(),
            external: self.external.deep_view(),
            file: self.file.deep_view(),
        }
    }
}

impl DeepView for Icon {
    type V = IconView;

    open spec fn deep_view(&self) -> IconView {
        self@
    }
}

impl IconView {
    /// The icon that a document stands for: the string `type` is
    /// required, the string `emoji` and the links `external` and `file`
    /// are optional. `None` where the document does not fit.
    pub open spec fn from_json(json: JsonView) -> Option<IconView> {
        match (
            json.required_text("type"@),
            json.optional_text("emoji"@),
            json.optional_nested("external"@, FileLinkView::schema()),
            json.optional_nested("file"@, FileLinkView::schema()),
        ) {
            (Some(icon_type), Some(emoji), Some(external), Some(file)) => Some(
                IconView { icon_type, emoji, external, file },
            ),
            _ => None,
        }
    }

    /// The schema of an icon, as a function.
    pub open spec fn schema() -> spec_fn(JsonView) -> Option<IconView> {
        |json: JsonView| Self::from_json(json)
    }

    /// The document that stands for the icon; a field without a value is
    /// left out.
    pub open spec fn to_json(self) -> JsonView {
        let members = no_members().insert("type"@, JsonView::String(self.icon_type));
        let members = with_optional(members, "emoji"@, optional_string(self.emoji));
        let members = with_optional(members, "external"@, optional_link(self.external));
        let members = with_optional(members, "file"@, optional_link(self.file));
        JsonView::Object(members)
    }
}

impl Icon {
    /// Reads an icon from a document.
    pub fn from_json(json: &Value) -> (r: Option<Icon>)
        ensures
            r.deep_view() == IconView::from_json(json_view(*json)),
    {
        let icon_type: String = match required_text(json, "type") {
            Some(text) => text,
            None => return None,
        };
        let emoji: Option<String> = match optional_text(json, "emoji") {
            Some(text) => text,
            None => return None,
        };
        let external: Option<FileLink> = match read_optional_link(json, "external") {
            Some(link) => link,
            None => return None,
        };
        let file: Option<FileLink> = match read_optional_link(json, "file") {
            Some(link) => link,
            None => return None,
        };
        Some(Icon { icon_type, emoji, external, file })
    }

    /// Writes the icon as a document.
    pub fn to_json(&self) -> (json: Value)
        ensures
            json_view(json) == self@.to_json(),
    {
        let mut members = serde_json::Map::new();
        put_text(&mut members, "type", self.icon_type.as_str());
        put_optional_text(&mut members, "emoji", &self.emoji);
        put_optional_link(&mut members, "external", &self.external);
        put_optional_link(&mut members, "file", &self.file);
        Value::from(members)
    }
}

/// One run of rich text, by its kind, its plain text and the address it
/// links to.
#[derive(Debug, Clone, PartialEq, Eq)]
pub struct RichText {
    pub text_type: String,
    pub plain_text: String,
    pub href: Option<String>,
}

/// The mathematical content of a [`RichText`].
pub struct RichTextView {
    pub text_type: Seq<char>,
    pub plain_text: Seq<char>,
    pub href: Option<Seq<char>>,
}

impl View for RichText {
    type V = RichTextView;

    open spec fn view(&self) -> RichTextView {
        RichTextView {
            text_type: self.text_type@,
            plain_text: self.plain_text@,
            href: self.href.deep_view(),
        }
    }
}

impl DeepView for RichText {
    type V = RichTextView;

    open spec fn deep_view(&self) -> RichTextView {
        self@
    }
}

impl RichTextView {
    /// The run that a document stands for: the strings `type` and
    /// `plain_text` are required, the string `href` is optional. `None`
    /// where the document does not fit.
    pub open spec fn from_json(json: JsonView) -> Option<RichTextView> {
        match (
            json.required_text("type"@),
            json.required_text("plain_text"@),
            json.optional_text("href"@),
        ) {
            (Some(text_type), Some(plain_text), Some(href)) => Some(
                RichTextView { text_type, plain_text, href },
            ),
            _ => None,
        }
    }

    /// The schema of a run of rich text, as a function.
    pub open spec fn schema() -> spec_fn(JsonView) -> Option<RichTextView> {
        |json: JsonView| Self::from_json(json)
    }
}

impl RichText {
    /// Reads a run of rich text from a document.
    pub fn from_json(json: &Value) -> (r: Option<RichText>)
        ensures
            r.deep_view() == RichTextView::from_json(json_view(*json)),
    {
        let text_type: String = match required_text(json, "type") {
            Some(text) => text,
            None => return None,
        };
        let plain_text: String = match required_text(json, "plain_text") {
            Some(text) => text,
            None => return None,
        };
        let href: Option<String> = match optional_text(json, "href") {
            Some(text) => text,
            None => return None,
        };
        Some(RichText { text_type, plain_text, href })
    }
}

/// The member names of links, files and icons differ from one another.
pub proof fn lemma_file_keys_differ()
    ensures
        "url"@ != "expiry_time"@,
        "type"@ != "external"@,
        "type"@ != "file"@,
        "type"@ != "emoji"@,
        "external"@ != "file"@,
        "external"@ != "emoji"@,
        "file"@ != "emoji"@,
{
    reveal_strlit("url");
    reveal_strlit("expiry_time");
    reveal_strlit("type");
    reveal_strlit("external");
    reveal_strlit("file");
    reveal_strlit("emoji");
    assert("url"@.len() == 3);
    assert("expiry_time"@.len() == 11);
    assert("type"@.len() == 4);
    assert("external"@.len() == 8);
    assert("file"@.len() == 4);
    assert("emoji"@.len() == 5);
    assert("type"@[0] != "file"@[0]);
}

/// Writing a link and reading it back gives the same link.
pub proof fn lemma_file_link_round_trip(link: FileLinkView)
    ensures
        FileLinkView::from_json(link.to_json()) == Some(link),
{
    lemma_file_keys_differ();
}

/// Writing a file and reading it back gives the same file.
pub proof fn lemma_file_round_trip(file: FileView)
    ensures
        FileView::from_json(file.to_json()) == Some(file),
{
    lemma_file_keys_differ();
    if file.external is Some {
        lemma_file_link_round_trip(file.external->0);
    }
    if file.file is Some {
        lemma_file_link_round_trip(file.file->0);
    }
}

/// Writing an icon and reading it back gives the same icon.
pub proof fn lemma_icon_round_trip(icon: IconView)
    ensures
        IconView::from_json(icon.to_json()) == Some(icon),
{
    lemma_file_keys_differ();
    if icon.external is Some {
        lemma_file_link_round_trip(icon.external->0);
    }
    if icon.file is Some {
        lemma_file_link_round_trip(icon.file->0);
    }
}

} // verus!
