//! Resource groups, one per tag of the REST API, and what they share: how
//! a call is described, and how list responses are read and walked.
use vstd::prelude::*;
use vstd::string::StringSliceAdditionalSpecFns;

use crate::client::{pairs, ApiRequest, HttpMethod};
use crate::json::{member, Json, JsonView};
use crate::text::{decimal, decimal_string};

mod chat;
mod company;
mod extract;
mod jobs;
mod lists;
mod monitors;
mod page;
mod products;
mod search;
mod site;

pub use chat::{messages_view, Chat, ChatCompletions, ChatMessage, ChatParams};
pub use company::{ByEmailParams, ByNameParams, ByTickerParams, Company, DomainParams, LogoParams};
pub use extract::{Extract, ExtractParams};
pub use jobs::{JobCreateParams, Jobs};
pub use lists::{ListRuns, Lists, ListsParams};
pub use monitors::{MonitorCreateParams, MonitorUpdateParams, Monitors};
pub use page::{
    Page, PageExtractParams, PageHtmlParams, PageImagesParams, PageMarkdownParams,
    PageScreenshotParams,
};
pub use products::{ProductOneParams, Products, ProductsParams};
pub use search::{
    encode_byte, encoded_segments_are_safe, escapes_are_two_hex_digits,
    lemma_percent_encode_concat, percent_decode, percent_encode, percent_encoding_decodes_back,
    percent_encoding_is_injective, segment_char, unreserved, unreserved_bytes_pass_through,
    upper_hex_char, upper_hex_digit, upper_hex_value, urlencode, AiQueryParams, Search,
    SearchParams,
};
pub use site::{Site, SiteCrawlParams, SiteMapParams};

verus! {

/// Whether `r` is the call with this method, path, query and body.
pub open spec fn request_is(
    r: ApiRequest,
    method: HttpMethod,
    path: Seq<char>,
    query: Seq<(Seq<char>, Seq<char>)>,
    body: Option<JsonView>,
) -> bool {
    &&& r.method == method
    &&& r.path@ == path
    &&& pairs(r.query@) == query
    &&& match (r.body, body) {
        (Some(b), Some(v)) => b@ == v,
        (None, None) => true,
        _ => false,
    }
}

/// The query of one page of a list: `limit` and `offset`.
pub open spec fn page_query(limit: nat, offset: nat) -> Seq<(Seq<char>, Seq<char>)> {
    seq![("limit"@, decimal(limit)), ("offset"@, decimal(offset))]
}

/// The path of a call on one object: `prefix`, the percent-encoded id, `suffix`.
pub open spec fn id_path(prefix: Seq<char>, id: &str, suffix: Seq<char>) -> Seq<char> {
    prefix + percent_encode(id.spec_bytes()) + suffix
}

pub(crate) fn path_with_id(prefix: &str, id: &str, suffix: &str) -> (p: String)
    ensures
        p@ == id_path(prefix@, id, suffix@),
{
    let mut p = prefix.to_owned();
    p.append(urlencode(id).as_str());
    p.append(suffix);
    p
}

pub(crate) fn list_query(limit: u64, offset: u64) -> (q: Vec<(String, String)>)
    ensures
        pairs(q@) == page_query(limit as nat, offset as nat),
{
    let mut q: Vec<(String, String)> = Vec::new();
    q.push(("limit".to_owned(), decimal_string(limit)));
    q.push(("offset".to_owned(), decimal_string(offset)));
    assert(pairs(q@) =~= page_query(limit as nat, offset as nat));
    q
}

/// A call with a JSON body.
pub(crate) fn post(path: String, body: Json) -> (r: ApiRequest)
    ensures
        request_is(r, HttpMethod::Post, path@, Seq::empty(), Some(body@)),
{
    with_body(HttpMethod::Post, path, body)
}

/// A call with this method and a JSON body.
pub(crate) fn with_body(method: HttpMethod, path: String, body: Json) -> (r: ApiRequest)
    ensures
        request_is(r, method, path@, Seq::empty(), Some(body@)),
{
    let r = ApiRequest { method, path, query: Vec::new(), body: Some(body) };
    assert(pairs(r.query@) =~= Seq::empty());
    r
}

/// A call without body or query.
pub(crate) fn bare(method: HttpMethod, path: String) -> (r: ApiRequest)
    ensures
        request_is(r, method, path@, Seq::empty(), None),
{
    let r = ApiRequest { method, path, query: Vec::new(), body: None };
    assert(pairs(r.query@) =~= Seq::empty());
    r
}

/// A `GET` of one page of a list.
pub(crate) fn list_page(path: &str, limit: u32, offset: u32) -> (r: ApiRequest)
    ensures
        request_is(r, HttpMethod::Get, path@, page_query(limit as nat, offset as nat), None),
{
    ApiRequest {
        method: HttpMethod::Get,
        path: path.to_owned(),
        query: list_query(limit as u64, offset as u64),
        body: None,
    }
}

/// The array at member `key` of an object, when it holds an array.
pub open spec fn array_member(m: Seq<(String, Json)>, key: Seq<char>) -> Option<Seq<Json>> {
    match member(m, key) {
        Some(Json::Array(a)) => Some(a@),
        _ => None,
    }
}

/// The first member of an object that holds an array.
pub open spec fn first_array(m: Seq<(String, Json)>) -> Option<Seq<Json>>
    decreases m.len(),
{
    if m.len() == 0 {
        None
    } else {
        match m[0].1 {
            Json::Array(a) => Some(a@),
            _ => first_array(m.drop_first()),
        }
    }
}

/// The records of a list object: the array at the first of the usual keys
/// (`items`, `data`, `results`, `searches`, `runs`, `jobs`, `monitors`)
/// that holds one, else the first member that holds an array.
pub open spec fn listed(m: Seq<(String, Json)>) -> Option<Seq<Json>> {
    if array_member(m, "items"@) is Some {
        array_member(m, "items"@)
    } else if array_member(m, "data"@) is Some {
        array_member(m, "data"@)
    } else if array_member(m, "results"@) is Some {
        array_member(m, "results"@)
    } else if array_member(m, "searches"@) is Some {
        array_member(m, "searches"@)
    } else if array_member(m, "runs"@) is Some {
        array_member(m, "runs"@)
    } else if array_member(m, "jobs"@) is Some {
        array_member(m, "jobs"@)
    } else if array_member(m, "monitors"@) is Some {
        array_member(m, "monitors"@)
    } else {
        first_array(m)
    }
}

/// The records of a list response of unknown shape: the response itself
/// when it is an array, the listed records of an object, else none.
pub open spec fn items_of(payload: Json) -> Seq<Json> {
    match payload {
        Json::Array(a) => a@,
        Json::Object(m) => match listed(m@) {
            Some(s) => s,
            None => Seq::empty(),
        },
        _ => Seq::empty(),
    }
}

fn take_array_member(m: &mut Vec<(String, Json)>, key: &str) -> (r: Option<Vec<Json>>)
    ensures
        match r {
            Some(a) => array_member(old(m)@, key@) == Some(a@),
            None => array_member(old(m)@, key@) is None && final(m)@ == old(m)@,
        },
{
    match crate::json::find_member(m, key) {
        Some(i) => {
            if let Json::Array(_) = &m[i].1 {
                let (_, v) = m.remove(i);
                match v {
                    Json::Array(a) => Some(a),
                    _ => None,
                }
            } else {
                None
            }
        },
        None => None,
    }
}

#[verifier::loop_isolation(false)]
fn take_first_array(members: Vec<(String, Json)>) -> (r: Option<Vec<Json>>)
    ensures
        match r {
            Some(a) => first_array(members@) == Some(a@),
            None => first_array(members@) is None,
        },
{
    let ghost orig = members@;
    let mut m = members;
    let mut i: usize = 0;
    assert(orig.skip(0) =~= orig);
    while i < m.len()
        invariant
            m@ == orig,
            i <= orig.len(),
            first_array(orig) == first_array(orig.skip(i as int)),
        decreases orig.len() - i,
    {
        assert(orig.skip(i as int).drop_first() =~= orig.skip(i + 1));
        assert(orig.skip(i as int)[0] == orig[i as int]);
        if let Json::Array(_) = &m[i].1 {
            let (_, v) = m.remove(i);
            assert(v == orig[i as int].1);
            if let Json::Array(a) = v {
                assert(first_array(orig.skip(i as int)) == Some(a@));
                return Some(a);
            }
            return None;
        }
        i = i + 1;
    }
    None
}

/// Pull the array of records out of a list response of unknown shape.
pub fn extract_items(payload: Json) -> (r: Vec<Json>)
    ensures
        r@ == items_of(payload),
{
    match payload {
        Json::Array(a) => a,
        Json::Object(m) => {
            let mut m = m;
            let ghost orig = m@;
            if let Some(a) = take_array_member(&mut m, "items") {
                return a;
            }
            if let Some(a) = take_array_member(&mut m, "data") {
                return a;
            }
            if let Some(a) = take_array_member(&mut m, "results") {
                return a;
            }
            if let Some(a) = take_array_member(&mut m, "searches") {
                return a;
            }
            if let Some(a) = take_array_member(&mut m, "runs") {
                return a;
            }
            if let Some(a) = take_array_member(&mut m, "jobs") {
                return a;
            }
            if let Some(a) = take_array_member(&mut m, "monitors") {
                return a;
            }
            match take_first_array(m) {
                Some(a) => a,
                None => Vec::new(),
            }
        },
        _ => Vec::new(),
    }
}

/// The page size used when walking a list.
pub const PAGE_LIMIT: usize = 50;

/// Where a walk through every page of a list stands.
pub struct PagerView {
    /// The path of the list.
    pub path: Seq<char>,
    /// The records collected so far.
    pub items: Seq<Json>,
    /// Whether the last page has been read.
    pub done: bool,
}

/// The walk's state after taking in `page`: its records are added, and the
/// walk is over when the page held fewer than [`PAGE_LIMIT`] records.
pub open spec fn absorbed(v: PagerView, page: Json) -> PagerView {
    PagerView {
        path: v.path,
        items: v.items + items_of(page),
        done: items_of(page).len() < PAGE_LIMIT,
    }
}

/// The walk's state after taking in `pages`, in order.
pub open spec fn walked(v: PagerView, pages: Seq<Json>) -> PagerView
    decreases pages.len(),
{
    if pages.len() == 0 {
        v
    } else {
        walked(absorbed(v, pages[0]), pages.drop_first())
    }
}

/// The records of `pages`, in order.
pub open spec fn all_items(pages: Seq<Json>) -> Seq<Json>
    decreases pages.len(),
{
    if pages.len() == 0 {
        Seq::empty()
    } else {
        items_of(pages[0]) + all_items(pages.drop_first())
    }
}

proof fn lemma_walked(v: PagerView, pages: Seq<Json>)
    requires
        pages.len() > 0,
    ensures
        walked(v, pages).path == v.path,
        walked(v, pages).items == v.items + all_items(pages),
        walked(v, pages).done == (items_of(pages.last()).len() < PAGE_LIMIT),
    decreases pages.len(),
{
    if pages.len() == 1 {
        assert(pages.drop_first() =~= Seq::<Json>::empty());
        assert(walked(absorbed(v, pages[0]), Seq::<Json>::empty()) == absorbed(v, pages[0]));
        assert(all_items(Seq::<Json>::empty()) == Seq::<Json>::empty());
        assert(all_items(pages) =~= items_of(pages[0]));
    } else {
        lemma_walked(absorbed(v, pages[0]), pages.drop_first());
        assert(pages.drop_first().last() == pages.last());
        assert(v.items + items_of(pages[0]) + all_items(pages.drop_first()) =~= v.items + all_items(pages));
    }
}

proof fn lemma_walked_prefix(v: PagerView, pages: Seq<Json>, k: int)
    requires
        0 < k <= pages.len(),
    ensures
        walked(v, pages.take(k)).done == (items_of(pages[k - 1]).len() < PAGE_LIMIT),
{
    lemma_walked(v, pages.take(k));
}

/// Law: walking a list collects every page: starting from nothing, each
/// page before the last holds a full [`PAGE_LIMIT`] or more records and
/// keeps the walk going, the walk ends at the first shorter page, and what it
/// collected is every page's records in order. The next page is always asked
/// for at the offset of the records collected so far
/// ([`Pager::next_request`]).
pub proof fn walks_collect_every_page(path: Seq<char>, pages: Seq<Json>)
    requires
        pages.len() > 0,
        forall|i: int| 0 <= i < pages.len() - 1 ==> items_of(#[trigger] pages[i]).len() >= PAGE_LIMIT,
        items_of(pages.last()).len() < PAGE_LIMIT,
    ensures
        forall|k: int|
            0 < k < pages.len() ==> !(#[trigger] walked(
                PagerView { path, items: Seq::empty(), done: false },
                pages.take(k),
            )).done,
        walked(PagerView { path, items: Seq::empty(), done: false }, pages) == (PagerView {
            path,
            items: all_items(pages),
            done: true,
        }),
{
    let start = PagerView { path, items: Seq::empty(), done: false };
    lemma_walked(start, pages);
    assert(Seq::<Json>::empty() + all_items(pages) =~= all_items(pages));
    assert forall|k: int| 0 < k < pages.len() implies !(#[trigger] walked(start, pages.take(k))).done by {
        lemma_walked_prefix(start, pages, k);
    }
}

/// A walk through every page of an offset-paginated list: each page is asked
/// for at the offset of the records collected so far, and the walk ends at
/// the first page with fewer than [`PAGE_LIMIT`] records.
pub struct Pager {
    path: String,
    items: Vec<Json>,
    done: bool,
}

impl View for Pager {
    type V = PagerView;

    closed spec fn view(&self) -> PagerView {
        PagerView { path: self.path@, items: self.items@, done: self.done }
    }
}

impl Pager {
    /// A walk through the list at `path` that has read nothing yet.
    pub fn new(path: &str) -> (p: Pager)
        ensures
            p@.path == path@,
            p@.items == Seq::<Json>::empty(),
            !p@.done,
    {
        Pager { path: path.to_owned(), items: Vec::new(), done: false }
    }

    /// Whether the last page has been read.
    pub fn is_done(&self) -> (r: bool)
        ensures
            r == self@.done,
    {
        self.done
    }

    /// The call for the next page.
    pub fn next_request(&self) -> (r: ApiRequest)
        ensures
            request_is(
                r,
                HttpMethod::Get,
                self@.path,
                page_query(PAGE_LIMIT as nat, self@.items.len()),
                None,
            ),
    {
        ApiRequest {
            method: HttpMethod::Get,
            path: self.path.clone(),
            query: list_query(PAGE_LIMIT as u64, self.items.len() as u64),
            body: None,
        }
    }

    /// Take in the next page.
    pub fn absorb(&mut self, page: Json)
        ensures
            final(self)@ == absorbed(old(self)@, page),
    {
        let mut items = extract_items(page);
        let n = items.len();
        self.items.append(&mut items);
        self.done = n < PAGE_LIMIT;
    }

    /// The records collected.
    pub fn into_items(self) -> (r: Vec<Json>)
        ensures
            r@ == self@.items,
    {
        self.items
    }
}

} // verus!

verus! {

/// Whether some member of `m` holds an array.
pub open spec fn holds_array(m: Seq<(String, Json)>) -> bool {
    exists|i: int| 0 <= i < m.len() && m[i].1 is Array
}

/// Whether one of the members of `m` holds an array whose items are `s`.
pub open spec fn is_member_array(m: Seq<(String, Json)>, s: Seq<Json>) -> bool {
    exists|i: int| 0 <= i < m.len() && ((#[trigger] m[i]).1 matches Json::Array(a) && a@ == s)
}

proof fn lemma_member_is_held(m: Seq<(String, Json)>, key: Seq<char>)
    ensures
        member(m, key) matches Some(v) ==> exists|i: int| 0 <= i < m.len() && (#[trigger] m[i]).1 == v,
    decreases m.len(),
{
    if m.len() > 0 && m[0].0@ != key {
        lemma_member_is_held(m.drop_first(), key);
        if let Some(v) = member(m, key) {
            let i = choose|i: int| 0 <= i < m.drop_first().len() && (#[trigger] m.drop_first()[i]).1 == v;
            assert(m[i + 1] == m.drop_first()[i]);
        }
    } else if m.len() > 0 {
        assert(m[0].1 == member(m, key)->0);
    }
}

proof fn lemma_array_member_is_held(m: Seq<(String, Json)>, key: Seq<char>)
    ensures
        array_member(m, key) matches Some(s) ==> is_member_array(m, s),
{
    lemma_member_is_held(m, key);
    if let Some(Json::Array(a)) = member(m, key) {
        let i = choose|i: int| 0 <= i < m.len() && (#[trigger] m[i]).1 == Json::Array(a);
        assert(m[i].1 matches Json::Array(x) && x@ == a@);
    }
}

proof fn lemma_first_array(m: Seq<(String, Json)>)
    ensures
        first_array(m) matches Some(s) ==> is_member_array(m, s),
        !holds_array(m) ==> first_array(m) is None,
    decreases m.len(),
{
    if m.len() > 0 {
        lemma_first_array(m.drop_first());
        if !(m[0].1 is Array) {
            if let Some(s) = first_array(m) {
                let i = choose|i: int| 0 <= i < m.drop_first().len() && ((#[trigger] m.drop_first()[i]).1 matches Json::Array(a) && a@ == s);
                assert(m[i + 1] == m.drop_first()[i]);
            }
            if holds_array(m.drop_first()) {
                let i = choose|i: int| 0 <= i < m.drop_first().len() && m.drop_first()[i].1 is Array;
                assert(m[i + 1] == m.drop_first()[i]);
            }
            if !holds_array(m) {
                assert forall|i: int| 0 <= i < m.drop_first().len() implies !(m.drop_first()[i].1 is Array) by {
                    assert(m[i + 1] == m.drop_first()[i]);
                }
            }
        } else {
            assert(m[0].1 matches Json::Array(a) && a@ == first_array(m)->0);
        }
    }
}

proof fn lemma_no_array_member(m: Seq<(String, Json)>, key: Seq<char>)
    requires
        !holds_array(m),
    ensures
        array_member(m, key) is None,
{
    lemma_member_is_held(m, key);
}

/// Law: the records of a list response are the response itself when it is
/// an array; for an object, the array under `items` when there is one, else
/// the one under `data` (and so on through the usual keys); an object none
/// of whose members holds an array, and any other value, has none; and the
/// records of an object are always an array that one of its members holds.
pub proof fn list_records_are_found(m: Vec<(String, Json)>, a: Vec<Json>, other: Json)
    ensures
        items_of(Json::Array(a)) == a@,
        member(m@, "items"@) == Some(Json::Array(a)) ==> items_of(Json::Object(m)) == a@,
        !(member(m@, "items"@) matches Some(Json::Array(_))) && member(m@, "data"@) == Some(
            Json::Array(a),
        ) ==> items_of(Json::Object(m)) == a@,
        !holds_array(m@) ==> items_of(Json::Object(m)) == Seq::<Json>::empty(),
        items_of(Json::Object(m)).len() > 0 ==> is_member_array(m@, items_of(Json::Object(m))),
        !(other is Array) && !(other is Object) ==> items_of(other) == Seq::<Json>::empty(),
{
    let ms = m@;
    lemma_array_member_is_held(ms, "items"@);
    lemma_array_member_is_held(ms, "data"@);
    lemma_array_member_is_held(ms, "results"@);
    lemma_array_member_is_held(ms, "searches"@);
    lemma_array_member_is_held(ms, "runs"@);
    lemma_array_member_is_held(ms, "jobs"@);
    lemma_array_member_is_held(ms, "monitors"@);
    lemma_first_array(ms);
    if !holds_array(ms) {
        lemma_no_array_member(ms, "items"@);
        lemma_no_array_member(ms, "data"@);
        lemma_no_array_member(ms, "results"@);
        lemma_no_array_member(ms, "searches"@);
        lemma_no_array_member(ms, "runs"@);
        lemma_no_array_member(ms, "jobs"@);
        lemma_no_array_member(ms, "monitors"@);
    }
}

/// Law: a page is asked for with its size under `limit` and the number of
/// records to skip under `offset`, both in decimal, and no other parameter.
pub proof fn pages_are_asked_by_limit_and_offset(limit: nat, offset: nat)
    ensures
        crate::client::header_value(page_query(limit, offset), "limit"@) == Some(decimal(limit)),
        crate::client::header_value(page_query(limit, offset), "offset"@) == Some(decimal(offset)),
        page_query(limit, offset).len() == 2,
{
    reveal_with_fuel(crate::client::header_value, 3);
    reveal_strlit("limit");
    reveal_strlit("offset");
    assert("limit"@.len() != "offset"@.len());
}

/// Law: the path of a call on one object is the prefix, then the object's
/// id as one path segment (no `/`, `?` or `#`) that decodes back to the id,
/// then the suffix.
pub proof fn ids_stay_one_path_segment(prefix: Seq<char>, id: &str, suffix: Seq<char>)
    ensures
        ({
            let p = id_path(prefix, id, suffix);
            let seg = p.subrange(prefix.len() as int, p.len() - suffix.len());
            &&& p.take(prefix.len() as int) == prefix
            &&& p.skip(p.len() - suffix.len()) == suffix
            &&& percent_decode(seg) == id.spec_bytes()
            &&& forall|i: int| 0 <= i < seg.len() ==> segment_char(#[trigger] seg[i])
        }),
{
    let e = percent_encode(id.spec_bytes());
    let p = id_path(prefix, id, suffix);
    assert(p.take(prefix.len() as int) =~= prefix);
    assert(p.skip(p.len() - suffix.len()) =~= suffix);
    assert(p.subrange(prefix.len() as int, p.len() - suffix.len()) =~= e);
    percent_encoding_decodes_back(id.spec_bytes());
    encoded_segments_are_safe(id.spec_bytes());
}

} // verus!
