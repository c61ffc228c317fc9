//! Web search, agentic AI queries, and search-run history.
use vstd::prelude::*;

use vstd::string::StringSliceAdditionalSpecFns;

use crate::text::push_char;
use crate::client::{ApiRequest, Client, HttpMethod};
use crate::json::{
    members_view,
    object,
    opt_str_member,
    opt_strs_member,
    opt_u32_member,
    push_member,
    push_opt_str,
    push_opt_strs,
    push_opt_u32,
    strings_json,
    strings_view,
    Json,
    JsonView,
};
use super::{bare, id_path, list_page, page_query, path_with_id, post, request_is, Pager};

verus! {

/// Bytes that pass through percent-encoding unchanged: ASCII letters,
/// digits, and `-`, `.`, `_`, `~`.
pub open spec fn unreserved(b: u8) -> bool {
    (65 <= b <= 90) || (97 <= b <= 122) || (48 <= b <= 57) || b == 45 || b == 46 || b == 95
        || b == 126
}

/// The upper-case hexadecimal digit of `d` (below sixteen).
pub open spec fn upper_hex_digit(d: nat) -> char {
    if d < 10 {
        (48 + d) as char
    } else {
        (55 + d) as char
    }
}

/// How one byte is written in a path segment: itself when unreserved, else
/// `%` and two upper-case hexadecimal digits.
pub open spec fn encode_byte(b: u8) -> Seq<char> {
    if unreserved(b) {
        seq![b as char]
    } else {
        seq!['%', upper_hex_digit((b / 16) as nat), upper_hex_digit((b % 16) as nat)]
    }
}

/// The percent-encoding of a byte sequence.
pub open spec fn percent_encode(bytes: Seq<u8>) -> Seq<char>
    decreases bytes.len(),
{
    if bytes.len() == 0 {
        Seq::empty()
    } else {
        encode_byte(bytes[0]) + percent_encode(bytes.drop_first())
    }
}

/// Percent-encoding distributes over concatenation.
pub proof fn lemma_percent_encode_concat(a: Seq<u8>, b: Seq<u8>)
    ensures
        percent_encode(a + b) == percent_encode(a) + percent_encode(b),
    decreases a.len(),
{
    if a.len() == 0 {
        assert(a + b =~= b);
    } else {
        assert((a + b).drop_first() =~= a.drop_first() + b);
        lemma_percent_encode_concat(a.drop_first(), b);
    }
}

fn upper_hex(d: u8) -> (c: char)
    requires
        d < 16,
    ensures
        c == upper_hex_digit(d as nat),
{
    if d < 10 {
        (48u8 + d) as char
    } else {
        (55u8 + d) as char
    }
}

/// Minimal percent-encoding for path segments (alnum and -._~ pass through).
pub fn urlencode(s: &str) -> (out: String)
    ensures
        out@ == percent_encode(s.spec_bytes()),
{
    let bytes = s.as_bytes();
    let mut out = String::new();
    for i in 0..bytes.len()
        invariant
            bytes@ == s.spec_bytes(),
            out@ == percent_encode(bytes@.take(i as int)),
    {
        let b = bytes[i];
        proof {
            assert(bytes@.take(i + 1) =~= bytes@.take(i as int) + seq![b]);
            lemma_percent_encode_concat(bytes@.take(i as int), seq![b]);
            assert(seq![b].drop_first() =~= Seq::<u8>::empty());
            assert(percent_encode(Seq::<u8>::empty()) =~= Seq::<char>::empty());
            assert(percent_encode(seq![b]) =~= encode_byte(b));
        }
        if (65 <= b && b <= 90) || (97 <= b && b <= 122) || (48 <= b && b <= 57) || b == 45 || b
            == 46 || b == 95 || b == 126 {
            push_char(&mut out, b as char);
        } else {
            push_char(&mut out, '%');
            push_char(&mut out, upper_hex(b / 16));
            push_char(&mut out, upper_hex(b % 16));
        }
    }
    assert(bytes@.take(bytes@.len() as int) =~= bytes@);
    out
}

/// Whether `c` may stand in an encoded path segment: an ASCII letter or
/// digit, `-`, `.`, `_`, `~`, or the escape character `%`.
pub open spec fn segment_char(c: char) -> bool {
    ('A' <= c <= 'Z') || ('a' <= c <= 'z') || ('0' <= c <= '9') || c == '-' || c == '.' || c
        == '_' || c == '~' || c == '%'
}

/// Law: an encoded path segment holds only letters, digits, `-`, `.`, `_`,
/// `~` and `%`; in particular no `/`, `?` or `#`, so an id cannot change the
/// path it is put in.
pub proof fn encoded_segments_are_safe(bytes: Seq<u8>)
    ensures
        forall|i: int| 0 <= i < percent_encode(bytes).len() ==> segment_char(#[trigger] percent_encode(bytes)[i]),
    decreases bytes.len(),
{
    if bytes.len() > 0 {
        encoded_segments_are_safe(bytes.drop_first());
        let e = encode_byte(bytes[0]);
        let rest = percent_encode(bytes.drop_first());
        assert forall|i: int| 0 <= i < percent_encode(bytes).len() implies segment_char(#[trigger] percent_encode(bytes)[i]) by {
            if i >= e.len() {
                assert(percent_encode(bytes)[i] == rest[i - e.len()]);
            }
        }
    }
}

/// Law: unreserved bytes (ASCII letters, digits, `-`, `.`, `_`, `~`) pass
/// through unchanged.
pub proof fn unreserved_bytes_pass_through(bytes: Seq<u8>)
    requires
        forall|i: int| 0 <= i < bytes.len() ==> unreserved(#[trigger] bytes[i]),
    ensures
        percent_encode(bytes) == bytes.map_values(|b: u8| b as char),
    decreases bytes.len(),
{
    if bytes.len() == 0 {
        assert(percent_encode(bytes) =~= bytes.map_values(|b: u8| b as char));
    } else {
        assert(unreserved(bytes[0]));
        assert forall|i: int| 0 <= i < bytes.drop_first().len() implies unreserved(#[trigger] bytes.drop_first()[i]) by {
            assert(bytes.drop_first()[i] == bytes[i + 1]);
        }
        unreserved_bytes_pass_through(bytes.drop_first());
        assert(percent_encode(bytes) =~= bytes.map_values(|b: u8| b as char));
    }
}

proof fn lemma_upper_hex_digit_injective(d: nat, e: nat)
    requires
        d < 16,
        e < 16,
        upper_hex_digit(d) == upper_hex_digit(e),
    ensures
        d == e,
{
}

/// Law: percent-encoding loses nothing: different byte sequences are
/// encoded differently.
pub proof fn percent_encoding_is_injective(a: Seq<u8>, b: Seq<u8>)
    requires
        percent_encode(a) == percent_encode(b),
    ensures
        a == b,
    decreases a.len(),
{
    if a.len() == 0 {
        if b.len() > 0 {
            assert(percent_encode(b).len() >= 1);
        }
        assert(a =~= b);
    } else {
        assert(percent_encode(a).len() >= 1);
        assert(b.len() > 0);
        let x = a[0];
        let y = b[0];
        let ea = encode_byte(x);
        let eb = encode_byte(y);
        let pa = percent_encode(a);
        assert(pa[0] == ea[0]);
        assert(percent_encode(b)[0] == eb[0]);
        if unreserved(x) {
            assert(ea[0] != '%');
            assert(unreserved(y));
            assert(x == y);
        } else {
            assert(!unreserved(y));
            assert(pa[1] == ea[1] && pa[1] == eb[1]);
            assert(pa[2] == ea[2] && pa[2] == eb[2]);
            lemma_upper_hex_digit_injective((x / 16) as nat, (y / 16) as nat);
            lemma_upper_hex_digit_injective((x % 16) as nat, (y % 16) as nat);
            assert(x == y);
        }
        assert(ea == eb);
        assert(percent_encode(a.drop_first()) =~= pa.skip(ea.len() as int));
        assert(percent_encode(b.drop_first()) =~= percent_encode(b).skip(eb.len() as int));
        percent_encoding_is_injective(a.drop_first(), b.drop_first());
        assert(a =~= seq![x] + a.drop_first());
        assert(b =~= seq![y] + b.drop_first());
    }
}

/// Whether `c` is an upper-case hexadecimal digit.
pub open spec fn upper_hex_char(c: char) -> bool {
    ('0' <= c <= '9') || ('A' <= c <= 'F')
}

/// The value of an upper-case hexadecimal digit.
pub open spec fn upper_hex_value(c: char) -> int {
    if c <= '9' {
        c as int - 48
    } else {
        c as int - 55
    }
}

/// Percent-decoding: `%` and two hexadecimal digits stand for the byte they
/// spell; any other character stands for its own code.
pub open spec fn percent_decode(cs: Seq<char>) -> Seq<u8>
    decreases cs.len(),
{
    if cs.len() == 0 {
        Seq::empty()
    } else if cs[0] == '%' && cs.len() >= 3 {
        seq![(upper_hex_value(cs[1]) * 16 + upper_hex_value(cs[2])) as u8] + percent_decode(
            cs.skip(3),
        )
    } else {
        seq![cs[0] as u8] + percent_decode(cs.skip(1))
    }
}

/// Law: percent-decoding an encoded path segment gives back the bytes that
/// were encoded.
pub proof fn percent_encoding_decodes_back(bytes: Seq<u8>)
    ensures
        percent_decode(percent_encode(bytes)) == bytes,
    decreases bytes.len(),
{
    if bytes.len() == 0 {
        assert(percent_decode(percent_encode(bytes)) =~= bytes);
    } else {
        let b = bytes[0];
        let rest = percent_encode(bytes.drop_first());
        let cs = percent_encode(bytes);
        percent_encoding_decodes_back(bytes.drop_first());
        if unreserved(b) {
            assert(cs.skip(1) =~= rest);
            assert(cs[0] == b as char);
            assert(cs[0] != '%');
            assert((cs[0] as u8) == b);
        } else {
            assert(cs.skip(3) =~= rest);
            assert(cs[0] == '%');
            let hi = (b / 16) as nat;
            let lo = (b % 16) as nat;
            assert(upper_hex_value(upper_hex_digit(hi)) == hi);
            assert(upper_hex_value(upper_hex_digit(lo)) == lo);
            assert(hi * 16 + lo == b);
        }
        assert(cs =~= encode_byte(b) + rest);
        assert(percent_decode(cs) =~= bytes);
    }
}

/// Law: in an encoded path segment every `%` is followed by two upper-case
/// hexadecimal digits.
pub proof fn escapes_are_two_hex_digits(bytes: Seq<u8>)
    ensures
        forall|i: int|
            0 <= i < percent_encode(bytes).len() && #[trigger] percent_encode(bytes)[i] == '%'
                ==> i + 2 < percent_encode(bytes).len() && upper_hex_char(percent_encode(bytes)[i + 1])
                && upper_hex_char(percent_encode(bytes)[i + 2]),
    decreases bytes.len(),
{
    if bytes.len() > 0 {
        escapes_are_two_hex_digits(bytes.drop_first());
        let e = encode_byte(bytes[0]);
        let rest = percent_encode(bytes.drop_first());
        let cs = percent_encode(bytes);
        assert(cs =~= e + rest);
        assert forall|i: int| 0 <= i < cs.len() && #[trigger] cs[i] == '%' implies i + 2 < cs.len()
            && upper_hex_char(cs[i + 1]) && upper_hex_char(cs[i + 2]) by {
            if i >= e.len() {
                assert(cs[i] == rest[i - e.len()]);
                assert(cs[i + 1] == rest[i + 1 - e.len()]);
                assert(cs[i + 2] == rest[i + 2 - e.len()]);
            }
        }
    }
}

/// Inputs to [`Search::create`].
#[derive(Debug, Clone, Default)]
pub struct SearchParams {
    pub queries: Vec<String>,
    pub objective: Option<String>,
    pub depth: Option<String>,
    pub mode: Option<String>,
    pub category: Option<String>,
    pub limit: Option<u32>,
    pub country: Option<String>,
    pub location: Option<String>,
    pub language: Option<String>,
    pub freshness: Option<String>,
    pub include_domains: Option<Vec<String>>,
    pub exclude_domains: Option<Vec<String>>,
    pub webhook: Option<String>,
}

impl SearchParams {
    /// The JSON body these inputs are sent as: each field under its name, absent
    /// optional fields left out.
    pub open spec fn serialized(self) -> JsonView {
        JsonView::Object(
            seq![("queries"@, JsonView::Array(strings_view(self.queries@)))]
                + opt_str_member("objective"@, self.objective)
                + opt_str_member("depth"@, self.depth)
                + opt_str_member("mode"@, self.mode)
                + opt_str_member("category"@, self.category)
                + opt_u32_member("limit"@, self.limit)
                + opt_str_member("country"@, self.country)
                + opt_str_member("location"@, self.location)
                + opt_str_member("language"@, self.language)
                + opt_str_member("freshness"@, self.freshness)
                + opt_strs_member("include_domains"@, self.include_domains)
                + opt_strs_member("exclude_domains"@, self.exclude_domains)
                + opt_str_member("webhook"@, self.webhook),
        )
    }

    /// The JSON body these inputs are sent as.
    pub fn to_json(self) -> (j: Json)
        ensures
            j@ == self.serialized(),
    {
        let mut m: Vec<(String, Json)> = Vec::new();
        let ghost v = self;
        push_member(&mut m, "queries", strings_json(self.queries));
        push_opt_str(&mut m, "objective", self.objective);
        push_opt_str(&mut m, "depth", self.depth);
        push_opt_str(&mut m, "mode", self.mode);
        push_opt_str(&mut m, "category", self.category);
        push_opt_u32(&mut m, "limit", self.limit);
        push_opt_str(&mut m, "country", self.country);
        push_opt_str(&mut m, "location", self.location);
        push_opt_str(&mut m, "language", self.language);
        push_opt_str(&mut m, "freshness", self.freshness);
        push_opt_strs(&mut m, "include_domains", self.include_domains);
        push_opt_strs(&mut m, "exclude_domains", self.exclude_domains);
        push_opt_str(&mut m, "webhook", self.webhook);
        assert(members_view(m@) =~= seq![("queries"@, JsonView::Array(strings_view(v.queries@)))] + opt_str_member("objective"@, v.objective) + opt_str_member("depth"@, v.depth) + opt_str_member("mode"@, v.mode) + opt_str_member("category"@, v.category) + opt_u32_member("limit"@, v.limit) + opt_str_member("country"@, v.country) + opt_str_member("location"@, v.location) + opt_str_member("language"@, v.language) + opt_str_member("freshness"@, v.freshness) + opt_strs_member("include_domains"@, v.include_domains) + opt_strs_member("exclude_domains"@, v.exclude_domains) + opt_str_member("webhook"@, v.webhook));
        object(m)
    }
}

/// Inputs to [`Search::ai_query`].
#[derive(Debug, Clone, Default)]
pub struct AiQueryParams {
    pub url: String,
    pub question: String,
    pub max_pages: Option<u32>,
}

impl AiQueryParams {
    /// The JSON body these inputs are sent as: each field under its name, absent
    /// optional fields left out.
    pub open spec fn serialized(self) -> JsonView {
        JsonView::Object(
            seq![("url"@, JsonView::Str(self.url@))]
                + seq![("question"@, JsonView::Str(self.question@))]
                + opt_u32_member("max_pages"@, self.max_pages),
        )
    }

    /// The JSON body these inputs are sent as.
    pub fn to_json(self) -> (j: Json)
        ensures
            j@ == self.serialized(),
    {
        let mut m: Vec<(String, Json)> = Vec::new();
        let ghost v = self;
        push_member(&mut m, "url", Json::Str(self.url));
        push_member(&mut m, "question", Json::Str(self.question));
        push_opt_u32(&mut m, "max_pages", self.max_pages);
        assert(members_view(m@) =~= seq![("url"@, JsonView::Str(v.url@))] + seq![("question"@, JsonView::Str(v.question@))] + opt_u32_member("max_pages"@, v.max_pages));
        object(m)
    }
}

/// Web search, agentic AI queries, and search-run history.
pub struct Search<'a> {
    pub(crate) client: &'a Client,
}

impl<'a> Search<'a> {
    /// The client this handle sends through.
    pub closed spec fn client_ref(self) -> &'a Client {
        self.client
    }
}

impl Client {
    /// Web search, agentic AI queries, and search-run history.
    pub fn search(&self) -> (r: Search<'_>)
        ensures
            r.client_ref() == self,
    {
        Search { client: self }
    }
}

impl<'a> Search<'a> {
    /// Run a web search.
    pub fn create(&self, params: SearchParams) -> (r: ApiRequest)
        ensures
            request_is(r, HttpMethod::Post, "/v1/search"@, Seq::empty(), Some(params.serialized())),
    {
        post("/v1/search".to_owned(), params.to_json())
    }

    /// Answer a natural-language question by reading a page (and its links).
    pub fn ai_query(&self, params: AiQueryParams) -> (r: ApiRequest)
        ensures
            request_is(r, HttpMethod::Post, "/v1/ai-query"@, Seq::empty(), Some(params.serialized())),
    {
        post("/v1/ai-query".to_owned(), params.to_json())
    }

    /// List prior search runs.
    pub fn list(&self, limit: u32, offset: u32) -> (r: ApiRequest)
        ensures
            request_is(r, HttpMethod::Get, "/v1/searches"@, page_query(limit as nat, offset as nat), None),
    {
        list_page("/v1/searches", limit, offset)
    }

    /// Collect every search run across all pages.
    pub fn list_all(&self) -> (p: Pager)
        ensures
            p@.path == "/v1/searches"@,
            p@.items == Seq::<Json>::empty(),
            !p@.done,
    {
        Pager::new("/v1/searches")
    }

    /// Fetch a single search run by id.
    pub fn get(&self, search_id: &str) -> (r: ApiRequest)
        ensures
            request_is(r, HttpMethod::Get, id_path("/v1/searches/"@, search_id, ""@), Seq::empty(), None),
    {
        bare(HttpMethod::Get, path_with_id("/v1/searches/", search_id, ""))
    }

    /// Cancel an in-flight search run.
    pub fn cancel(&self, search_id: &str) -> (r: ApiRequest)
        ensures
            request_is(r, HttpMethod::Post, id_path("/v1/searches/"@, search_id, "/cancel"@), Seq::empty(), None),
    {
        bare(HttpMethod::Post, path_with_id("/v1/searches/", search_id, "/cancel"))
    }

    /// Fetch the event stream (as JSON) for a search run.
    pub fn events(&self, search_id: &str) -> (r: ApiRequest)
        ensures
            request_is(r, HttpMethod::Get, id_path("/v1/searches/"@, search_id, "/events"@), Seq::empty(), None),
    {
        bare(HttpMethod::Get, path_with_id("/v1/searches/", search_id, "/events"))
    }
}


} // verus!

verus! {

use crate::json::{
    bool_field, document_field, field_of, group_field_lookup, member_count, number_field, present,
    str_field, string_array, strings_field,
};

/// Law: the body of `SearchParams` holds each field under its own name with its value,
/// each optional field only when it is set, and no other member.
pub proof fn search_params_are_sent_under_their_names(p: SearchParams)
    ensures
        field_of(p.serialized(), "queries"@) == Some(string_array(p.queries@)),
        field_of(p.serialized(), "objective"@) == str_field(p.objective),
        field_of(p.serialized(), "depth"@) == str_field(p.depth),
        field_of(p.serialized(), "mode"@) == str_field(p.mode),
        field_of(p.serialized(), "category"@) == str_field(p.category),
        field_of(p.serialized(), "limit"@) == number_field(p.limit),
        field_of(p.serialized(), "country"@) == str_field(p.country),
        field_of(p.serialized(), "location"@) == str_field(p.location),
        field_of(p.serialized(), "language"@) == str_field(p.language),
        field_of(p.serialized(), "freshness"@) == str_field(p.freshness),
        field_of(p.serialized(), "include_domains"@) == strings_field(p.include_domains),
        field_of(p.serialized(), "exclude_domains"@) == strings_field(p.exclude_domains),
        field_of(p.serialized(), "webhook"@) == str_field(p.webhook),
        member_count(p.serialized()) == 1 + present(p.objective) + present(p.depth) + present(p.mode) + present(p.category) + present(p.limit) + present(p.country) + present(p.location) + present(p.language) + present(p.freshness) + present(p.include_domains) + present(p.exclude_domains) + present(p.webhook),
{
    broadcast use group_field_lookup;

    reveal_strlit("queries");
    reveal_strlit("objective");
    reveal_strlit("depth");
    reveal_strlit("mode");
    reveal_strlit("category");
    reveal_strlit("limit");
    reveal_strlit("country");
    reveal_strlit("location");
    reveal_strlit("language");
    reveal_strlit("freshness");
    reveal_strlit("include_domains");
    reveal_strlit("exclude_domains");
    reveal_strlit("webhook");
    assert("queries"@.len() != "objective"@.len());
    assert("queries"@.len() != "depth"@.len());
    assert("queries"@.len() != "mode"@.len());
    assert("queries"@.len() != "category"@.len());
    assert("queries"@.len() != "limit"@.len());
    assert("queries"@[0] != "country"@[0]);
    assert("queries"@.len() != "location"@.len());
    assert("queries"@.len() != "language"@.len());
    assert("queries"@.len() != "freshness"@.len());
    assert("queries"@.len() != "include_domains"@.len());
    assert("queries"@.len() != "exclude_domains"@.len());
    assert("queries"@[0] != "webhook"@[0]);
    assert("objective"@.len() != "depth"@.len());
    assert("objective"@.len() != "mode"@.len());
    assert("objective"@.len() != "category"@.len());
    assert("objective"@.len() != "limit"@.len());
    assert("objective"@.len() != "country"@.len());
    assert("objective"@.len() != "location"@.len());
    assert("objective"@.len() != "language"@.len());
    assert("objective"@[0] != "freshness"@[0]);
    assert("objective"@.len() != "include_domains"@.len());
    assert("objective"@.len() != "exclude_domains"@.len());
    assert("objective"@.len() != "webhook"@.len());
    assert("depth"@.len() != "mode"@.len());
    assert("depth"@.len() != "category"@.len());
    assert("depth"@[0] != "limit"@[0]);
    assert("depth"@.len() != "country"@.len());
    assert("depth"@.len() != "location"@.len());
    assert("depth"@.len() != "language"@.len());
    assert("depth"@.len() != "freshness"@.len());
    assert("depth"@.len() != "include_domains"@.len());
    assert("depth"@.len() != "exclude_domains"@.len());
    assert("depth"@.len() != "webhook"@.len());
    assert("mode"@.len() != "category"@.len());
    assert("mode"@.len() != "limit"@.len());
    assert("mode"@.len() != "country"@.len());
    assert("mode"@.len() != "location"@.len());
    assert("mode"@.len() != "language"@.len());
    assert("mode"@.len() != "freshness"@.len());
    assert("mode"@.len() != "include_domains"@.len());
    assert("mode"@.len() != "exclude_domains"@.len());
    assert("mode"@.len() != "webhook"@.len());
    assert("category"@.len() != "limit"@.len());
    assert("category"@.len() != "country"@.len());
    assert("category"@[0] != "location"@[0]);
    assert("category"@[0] != "language"@[0]);
    assert("category"@.len() != "freshness"@.len());
    assert("category"@.len() != "include_domains"@.len());
    assert("category"@.len() != "exclude_domains"@.len());
    assert("category"@.len() != "webhook"@.len());
    assert("limit"@.len() != "country"@.len());
    assert("limit"@.len() != "location"@.len());
    assert("limit"@.len() != "language"@.len());
    assert("limit"@.len() != "freshness"@.len());
    assert("limit"@.len() != "include_domains"@.len());
    assert("limit"@.len() != "exclude_domains"@.len());
    assert("limit"@.len() != "webhook"@.len());
    assert("country"@.len() != "location"@.len());
    assert("country"@.len() != "language"@.len());
    assert("country"@.len() != "freshness"@.len());
    assert("country"@.len() != "include_domains"@.len());
    assert("country"@.len() != "exclude_domains"@.len());
    assert("country"@[0] != "webhook"@[0]);
    assert("location"@[1] != "language"@[1]);
    assert("location"@.len() != "freshness"@.len());
    assert("location"@.len() != "include_domains"@.len());
    assert("location"@.len() != "exclude_domains"@.len());
    assert("location"@.len() != "webhook"@.len());
    assert("language"@.len() != "freshness"@.len());
    assert("language"@.len() != "include_domains"@.len());
    assert("language"@.len() != "exclude_domains"@.len());
    assert("language"@.len() != "webhook"@.len());
    assert("freshness"@.len() != "include_domains"@.len());
    assert("freshness"@.len() != "exclude_domains"@.len());
    assert("freshness"@.len() != "webhook"@.len());
    assert("include_domains"@[0] != "exclude_domains"@[0]);
    assert("include_domains"@.len() != "webhook"@.len());
    assert("exclude_domains"@.len() != "webhook"@.len());
}

/// Law: the body of `AiQueryParams` holds each field under its own name with its value,
/// each optional field only when it is set, and no other member.
pub proof fn ai_query_params_are_sent_under_their_names(p: AiQueryParams)
    ensures
        field_of(p.serialized(), "url"@) == Some(JsonView::Str(p.url@)),
        field_of(p.serialized(), "question"@) == Some(JsonView::Str(p.question@)),
        field_of(p.serialized(), "max_pages"@) == number_field(p.max_pages),
        member_count(p.serialized()) == 1 + 1 + present(p.max_pages),
{
    broadcast use group_field_lookup;

    reveal_strlit("url");
    reveal_strlit("question");
    reveal_strlit("max_pages");
    assert("url"@.len() != "question"@.len());
    assert("url"@.len() != "max_pages"@.len());
    assert("question"@.len() != "max_pages"@.len());
}

} // verus!
