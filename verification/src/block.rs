//! Blocks, the units that page content is made of.

use serde_json::Value;
use vstd::prelude::*;
use crate::client::Client;
use crate::error::{DecodeFailure, Error, ErrorView};
use crate::http::{decoded, Method, Request, Response, ResponseView};
use crate::json::{
    array_view, each_decoded, json_view, lemma_readers_ignore_other_members, required_flag,
    required_items, required_text, JsonView,
};
use crate::pagination::{consistent, continuation, read_continuation};
use crate::text::join;

verus! {

/// One block as the service reports it.
#[derive(Debug, Clone, PartialEq, Eq)]
pub struct Block {
    pub object: String,
    pub id: String,
    pub block_type: String,
    pub created_time: String,
    pub last_edited_time: String,
    pub archived: bool,
    pub has_children: bool,
}

/// The mathematical content of a [`Block`].
pub struct BlockView {
    pub object: Seq<char>,
    pub id: Seq<char>,
    pub block_type: Seq<char>,
    pub created_time: Seq<char>,
    pub last_edited_time: Seq<char>,
    pub archived: bool,
    pub has_children: bool,
}

impl View for Block {
    type V = BlockView;

    open spec fn view(&self) -> BlockView {
        BlockView {
            object: self.object@,
            id: self.id@,
            block_type: self.block_type@,
            created_time: self.created_time@,
            last_edited_time: self.last_edited_time@,
            archived: self.archived,
            has_children: self.has_children,
        }
    }
}

impl DeepView for Block {
    type V = BlockView;

    open spec fn deep_view(&self) -> BlockView {
        self@
    }
}

impl BlockView {
    /// The block that a document stands for: the strings `object`, `id`,
    /// `type`, `created_time` and `last_edited_time` and the booleans
    /// `archived` and `has_children` are all required; members of other
    /// names are ignored. `None` where the document does not fit.
    pub open spec fn from_json(json: JsonView) -> Option<BlockView> {
        match (
            json.required_text("object"@),
            json.required_text("id"@),
            json.required_text("type"@),
            json.required_text("created_time"@),
            json.required_text("last_edited_time"@),
            json.required_flag("archived"@),
            json.required_flag("has_children"@),
        ) {
            (
                Some(object),
                Some(id),
                Some(block_type),
                Some(created_time),
                Some(last_edited_time),
                Some(archived),
                Some(has_children),
            ) => Some(
                BlockView {
                    object,
                    id,
                    block_type,
                    created_time,
                    last_edited_time,
                    archived,
                    has_children,
                },
            ),
            _ => None,
        }
    }

    /// The schema of a block, as a function.
    pub open spec fn schema() -> spec_fn(JsonView) -> Option<BlockView> {
        |json: JsonView| Self::from_json(json)
    }

    /// What a response to a request for one block amounts to.
    pub open spec fn outcome(response: ResponseView) -> Result<BlockView, ErrorView> {
        decoded(response.document(), Self::schema())
    }
}

impl Block {
    /// Reads a block from a document.
    pub fn from_json(json: &Value) -> (r: Option<Block>)
        ensures
            r.deep_view() == BlockView::from_json(json_view(*json)),
    {
        let object: String = match required_text(json, "object") {
            Some(text) => text,
            None => return None,
        };
        let id: String = match required_text(json, "id") {
            Some(text) => text,
            None => return None,
        };
        let block_type: String = match required_text(json, "type") {
            Some(text) => text,
            None => return None,
        };
        let created_time: String = match required_text(json, "created_time") {
            Some(text) => text,
            None => return None,
        };
        let last_edited_time: String = match required_text(json, "last_edited_time") {
            Some(text) => text,
            None => return None,
        };
        let archived: bool = match required_flag(json, "archived") {
            Some(flag) => flag,
            None => return None,
        };
        let has_children: bool = match required_flag(json, "has_children") {
            Some(flag) => flag,
            None => return None,
        };
        Some(
            Block {
                object,
                id,
                block_type,
                created_time,
                last_edited_time,
                archived,
                has_children,
            },
        )
    }

    /// Interprets the response to [`Client::get_block`]: a status other
    /// than success is a rejection with the status and the body text, a
    /// body that is no JSON or no block a decode failure, and every other
    /// response gives its block.
    pub fn from_response(response: &Response) -> (r: Result<Block, Error>)
        ensures
            match r {
                Ok(block) => BlockView::outcome(response@) == Ok::<BlockView, ErrorView>(block@),
                Err(e) => BlockView::outcome(response@) == Err::<BlockView, ErrorView>(e@),
            },
    {
        let json: Value = match response.document() {
            Ok(json) => json,
            Err(e) => return Err(e),
        };
        match Block::from_json(&json) {
            Some(block) => Ok(block),
            None => Err(Error::Decode { failure: DecodeFailure::Schema }),
        }
    }
}

/// One page of the blocks under a block, in the order of the service.
#[derive(Debug, Clone, PartialEq, Eq)]
pub struct Blocks {
    pub object: String,
    pub results: Vec<Block>,
    pub next_cursor: Option<String>,
    pub has_more: bool,
}

/// The mathematical content of a [`Blocks`].
pub struct BlocksView {
    pub object: Seq<char>,
    pub results: Seq<BlockView>,
    pub next_cursor: Option<Seq<char>>,
    pub has_more: bool,
}

impl View for Blocks {
    type V = BlocksView;

    open spec fn view(&self) -> BlocksView {
        BlocksView {
            object: self.object@,
            results: self.results.deep_view(),
            next_cursor: self.next_cursor.deep_view(),
            has_more: self.has_more,
        }
    }
}

impl BlocksView {
    /// Whether the page ends consistently: without more results there is
    /// no cursor.
    pub open spec fn wf(self) -> bool {
        consistent(self.next_cursor, self.has_more)
    }

    /// The page that a document stands for: the string `object`, the array
    /// `results` of blocks and a consistent end. `None` where the document
    /// does not fit.
    pub open spec fn from_json(json: JsonView) -> Option<BlocksView> {
        match (
            json.required_text("object"@),
            json.required_items("results"@),
            continuation(json),
        ) {
            (Some(object), Some(items), Some((next_cursor, has_more))) => match each_decoded(
                items,
                BlockView::schema(),
            ) {
                Some(results) => Some(BlocksView { object, results, next_cursor, has_more }),
                None => None,
            },
            _ => None,
        }
    }

    /// The schema of a page of blocks, as a function.
    pub open spec fn schema() -> spec_fn(JsonView) -> Option<BlocksView> {
        |json: JsonView| Self::from_json(json)
    }

    /// What a response to a request for the children of a block amounts
    /// to.
    pub open spec fn outcome(response: ResponseView) -> Result<BlocksView, ErrorView> {
        decoded(response.document(), Self::schema())
    }
}

/// Reads every element of an array as a block.
fn blocks_from_items(items: &Vec<Value>) -> (r: Option<Vec<Block>>)
    ensures
        r.deep_view() == each_decoded(array_view(items@), BlockView::schema()),
{
    let ghost documents = array_view(items@);
    let mut results: Vec<Block> = Vec::new();
    let mut i: usize = 0;
    while i < items.len()
        invariant
            i <= items.len(),
            results.len() == i,
            documents == array_view(items@),
            forall|k: int|
                0 <= k < i ==> (#[trigger] BlockView::schema()(documents[k])) == Some(
                    results@[k]@,
                ),
        decreases items.len() - i,
    {
        match Block::from_json(&items[i]) {
            Some(block) => {
                results.push(block);
            },
            None => {
                assert(BlockView::schema()(documents[i as int]) is None);
                return None;
            },
        }
        i += 1;
    }
    assert(results.deep_view() =~= each_decoded(documents, BlockView::schema())->0);
    Some(results)
}

impl Blocks {
    /// Reads a page of blocks from a document.
    pub fn from_json(json: &Value) -> (r: Option<Blocks>)
        ensures
            match r {
                Some(page) => BlocksView::from_json(json_view(*json)) == Some(page@),
                None => BlocksView::from_json(json_view(*json)) is None,
            },
            r matches Some(page) ==> page@.wf(),
    {
        let object: String = match required_text(json, "object") {
            Some(text) => text,
            None => return None,
        };
        let items: &Vec<Value> = match required_items(json, "results") {
            Some(items) => items,
            None => return None,
        };
        let (next_cursor, has_more): (Option<String>, bool) = match read_continuation(json) {
            Some(end) => end,
            None => return None,
        };
        let results: Vec<Block> = match blocks_from_items(items) {
            Some(results) => results,
            None => return None,
        };
        Some(Blocks { object, results, next_cursor, has_more })
    }

    /// Interprets the response to [`Client::get_block_children`]: a status
    /// other than success is a rejection with the status and the body
    /// text, a body that is no JSON or no page of blocks a decode failure,
    /// and every other response gives its page.
    pub fn from_response(response: &Response) -> (r: Result<Blocks, Error>)
        ensures
            match r {
                Ok(page) => BlocksView::outcome(response@) == Ok::<BlocksView, ErrorView>(page@),
                Err(e) => BlocksView::outcome(response@) == Err::<BlocksView, ErrorView>(e@),
            },
            r matches Ok(page) ==> page@.wf(),
    {
        let json: Value = match response.document() {
            Ok(json) => json,
            Err(e) => return Err(e),
        };
        match Blocks::from_json(&json) {
            Some(page) => Ok(page),
            None => Err(Error::Decode { failure: DecodeFailure::Schema }),
        }
    }
}

/// The path of the block `id`.
pub open spec fn block_path(id: Seq<char>) -> Seq<char> {
    "/block/"@ + id
}

/// The path of the children of the block `id`.
pub open spec fn block_children_path(id: Seq<char>) -> Seq<char> {
    "/block/"@ + id + "/children"@
}

impl Client {
    /// Composes the request that retrieves the block `id`; its response is
    /// read by [`Block::from_response`].
    pub fn get_block(&self, id: &str) -> (r: Request)
        ensures
            r@ == self@.request(Method::Get, block_path(id@)),
            self@.signs(r@),
    {
        let path: String = join("/block/", id);
        self.build_request(Method::Get, path.as_str())
    }

    /// Updating a block is not wired to the service: the call succeeds
    /// and composes no request.
    pub fn update_block(&self, id: String, block: Block) -> (r: Result<(), Error>)
        ensures
            r is Ok,
    {
        let _ = id;
        let _ = block;
        Ok(())
    }

    /// Composes the request that deletes the block `id`; its response is
    /// read by [`Response::acknowledged`].
    pub fn delete_block(&self, id: &str) -> (r: Request)
        ensures
            r@ == self@.request(Method::Delete, block_path(id@)),
            self@.signs(r@),
    {
        let path: String = join("/block/", id);
        self.build_request(Method::Delete, path.as_str())
    }

    /// Composes the request for one page of the children of the block
    /// `id`, from `start_cursor` on and of `page_size` results where these
    /// are given; both travel as query parameters. Its response is read by
    /// [`Blocks::from_response`].
    pub fn get_block_children(
        &self,
        id: &str,
        start_cursor: Option<String>,
        page_size: Option<u32>,
    ) -> (r: Request)
        ensures
            r@ == self@.request(Method::Get, block_children_path(id@)).paged(
                start_cursor.deep_view(),
                page_size,
            ),
            self@.signs(r@),
    {
        let path: String = join("/block/", id);
        let path: String = join(path.as_str(), "/children");
        self.build_request(Method::Get, path.as_str()).paged(start_cursor, page_size)
    }
}

/// Every page of blocks that is read from a document ends consistently:
/// where it reports no more results it holds no cursor.
pub proof fn lemma_blocks_page_is_consistent(json: JsonView)
    ensures
        BlocksView::from_json(json) matches Some(page) ==> (!page.has_more ==> page.next_cursor is None),
{
}

/// Whether a name is none of the member names of a block.
pub open spec fn is_unknown_to_block(name: Seq<char>) -> bool {
    &&& name != "object"@
    &&& name != "id"@
    &&& name != "type"@
    &&& name != "created_time"@
    &&& name != "last_edited_time"@
    &&& name != "archived"@
    &&& name != "has_children"@
}

/// A member of a name that is unknown to the schema of a block changes
/// nothing of the block that is read: neither its presence nor its value
/// makes a document fit or not fit.
pub proof fn lemma_block_ignores_unknown_members(
    members: Map<Seq<char>, JsonView>,
    name: Seq<char>,
    value: JsonView,
)
    requires
        is_unknown_to_block(name),
    ensures
        BlockView::from_json(JsonView::Object(members.insert(name, value)))
            == BlockView::from_json(JsonView::Object(members)),
{
    lemma_readers_ignore_other_members(members, "object"@, name, value);
    lemma_readers_ignore_other_members(members, "id"@, name, value);
    lemma_readers_ignore_other_members(members, "type"@, name, value);
    lemma_readers_ignore_other_members(members, "created_time"@, name, value);
    lemma_readers_ignore_other_members(members, "last_edited_time"@, name, value);
    lemma_readers_ignore_other_members(members, "archived"@, name, value);
    lemma_readers_ignore_other_members(members, "has_children"@, name, value);
}

} // verus!
