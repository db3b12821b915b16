//! The cursor protocol of the endpoints that answer in pages.
//!
//! A page of results ends with a flag that says whether more results
//! exist and, where they do, a cursor to ask for them with. The caller
//! drives the iteration: each call is one round trip.

use serde_json::Value;
use vstd::prelude::*;
use crate::http::{Request, RequestView};
use crate::json::{json_view, optional_text, required_flag, JsonView};
use crate::text::{decimal, to_decimal};

verus! {

/// The name of the query parameter that carries the cursor to resume from.
pub const START_CURSOR: &'static str = "start_cursor";

/// The name of the query parameter that carries the wanted page size.
pub const PAGE_SIZE: &'static str = "page_size";

/// Whether the end of a page of results is consistent: where no more
/// results exist there is no cursor to ask for them with.
pub open spec fn consistent(next_cursor: Option<Seq<char>>, has_more: bool) -> bool {
    !has_more ==> next_cursor is None
}

/// The end of the page of results that a document stands for: the
/// optional string `next_cursor` and the required boolean `has_more`.
/// `None` where either does not fit or the two are not consistent.
pub open spec fn continuation(json: JsonView) -> Option<(Option<Seq<char>>, bool)> {
    match (json.optional_text("next_cursor"@), json.required_flag("has_more"@)) {
        (Some(next_cursor), Some(has_more)) => if consistent(next_cursor, has_more) {
            Some((next_cursor, has_more))
        } else {
            None
        },
        _ => None,
    }
}

/// Reads the end of a page of results.
pub fn read_continuation(json: &Value) -> (r: Option<(Option<String>, bool)>)
    ensures
        r.deep_view() == continuation(json_view(*json)),
{
    let next_cursor: Option<String> = match optional_text(json, "next_cursor") {
        Some(text) => text,
        None => return None,
    };
    let has_more: bool = match required_flag(json, "has_more") {
        Some(flag) => flag,
        None => return None,
    };
    if !has_more && next_cursor.is_some() {
        return None;
    }
    Some((next_cursor, has_more))
}

/// The decimal numeral of an optional page size.
pub open spec fn page_size_text(page_size: Option<u32>) -> Option<Seq<char>> {
    match page_size {
        Some(n) => Some(decimal(n as nat)),
        None => None,
    }
}

impl RequestView {
    /// The request that asks for one page: the cursor, where there is
    /// one, and then the page size, where there is one, are added to the
    /// query parameters; the body is left as it is.
    pub open spec fn paged(self, start_cursor: Option<Seq<char>>, page_size: Option<u32>)
        -> RequestView {
        self.with_optional_query(START_CURSOR@, start_cursor).with_optional_query(
            PAGE_SIZE@,
            page_size_text(page_size),
        )
    }
}

impl Request {
    /// Asks for one page: from the cursor on, where there is one, and of
    /// the given size, where there is one.
    pub fn paged(self, start_cursor: Option<String>, page_size: Option<u32>) -> (r: Request)
        ensures
            r@ == self@.paged(start_cursor.deep_view(), page_size),
    {
        let request = self.with_optional_query(START_CURSOR, &start_cursor);
        match page_size {
            Some(n) => {
                let size: String = to_decimal(n);
                request.with_query(PAGE_SIZE, size.as_str())
            },
            None => request,
        }
    }
}

} // verus!
