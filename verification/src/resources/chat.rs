//! OpenAI-compatible chat completions, optionally grounded with web search.
use vstd::prelude::*;

use crate::client::{ApiRequest, Client, HttpMethod};
use crate::json::{
    members_view, object, opt_bool_member, opt_json_member, opt_str_member, opt_u32_member,
    push_member, push_opt_bool, push_opt_json, push_opt_str, push_opt_u32, json_view, Json,
    JsonView,
};
use super::{post, request_is};

verus! {

/// A single message in a chat completion request.
#[derive(Debug, Clone, Default)]
pub struct ChatMessage {
    pub role: String,
    pub content: String,
}

impl ChatMessage {
    /// The JSON body these inputs are sent as: each field under its name, absent
    /// optional fields left out.
    pub open spec fn serialized(self) -> JsonView {
        JsonView::Object(
            seq![("role"@, JsonView::Str(self.role@))]
                + seq![("content"@, JsonView::Str(self.content@))],
        )
    }

    /// The JSON body these inputs are sent as.
    pub fn to_json(self) -> (j: Json)
        ensures
            j@ == self.serialized(),
    {
        let mut m: Vec<(String, Json)> = Vec::new();
        let ghost v = self;
        push_member(&mut m, "role", Json::Str(self.role));
        push_member(&mut m, "content", Json::Str(self.content));
        assert(members_view(m@) =~= seq![("role"@, JsonView::Str(v.role@))] + seq![("content"@, JsonView::Str(v.content@))]);
        object(m)
    }
}

/// The JSON values of `messages`, in order.
pub open spec fn messages_view(messages: Seq<ChatMessage>) -> Seq<JsonView> {
    Seq::new(messages.len(), |i: int| messages[i].serialized())
}

fn messages_json(messages: Vec<ChatMessage>) -> (j: Json)
    ensures
        j@ == JsonView::Array(messages_view(messages@)),
{
    let mut out: Vec<Json> = Vec::new();
    let ghost orig = messages@;
    for m in it: messages.into_iter()
        invariant
            it.seq() == orig,
            out@.len() == it.index(),
            forall|i: int| 0 <= i < it.index() ==> json_view(#[trigger] out@[i]) == orig[i].serialized(),
    {
        out.push(m.to_json());
    }
    let j = Json::Array(out);
    assert(out@.len() == orig.len());
    assert(json_view(j)->Array_0 =~= messages_view(orig));
    j
}

/// Inputs to [`ChatCompletions::create`]; `temperature` and `top_p` are the
/// JSON numbers they are sent as.
#[derive(Debug, Clone, Default)]
pub struct ChatParams {
    pub messages: Vec<ChatMessage>,
    pub model: Option<String>,
    pub stream: Option<bool>,
    pub temperature: Option<Json>,
    pub top_p: Option<Json>,
    pub web_search: Option<bool>,
    pub max_tokens: Option<u32>,
}

impl ChatParams {
    /// The JSON body these inputs are sent as: each field under its name, absent
    /// optional fields left out.
    pub open spec fn serialized(self) -> JsonView {
        JsonView::Object(
            seq![("messages"@, JsonView::Array(messages_view(self.messages@)))]
                + opt_str_member("model"@, self.model)
                + opt_bool_member("stream"@, self.stream)
                + opt_json_member("temperature"@, self.temperature)
                + opt_json_member("top_p"@, self.top_p)
                + opt_bool_member("web_search"@, self.web_search)
                + opt_u32_member("max_tokens"@, self.max_tokens),
        )
    }

    /// The JSON body these inputs are sent as.
    pub fn to_json(self) -> (j: Json)
        ensures
            j@ == self.serialized(),
    {
        let mut m: Vec<(String, Json)> = Vec::new();
        let ghost v = self;
        push_member(&mut m, "messages", messages_json(self.messages));
        push_opt_str(&mut m, "model", self.model);
        push_opt_bool(&mut m, "stream", self.stream);
        push_opt_json(&mut m, "temperature", self.temperature);
        push_opt_json(&mut m, "top_p", self.top_p);
        push_opt_bool(&mut m, "web_search", self.web_search);
        push_opt_u32(&mut m, "max_tokens", self.max_tokens);
        assert(members_view(m@) =~= seq![("messages"@, JsonView::Array(messages_view(v.messages@)))] + opt_str_member("model"@, v.model) + opt_bool_member("stream"@, v.stream) + opt_json_member("temperature"@, v.temperature) + opt_json_member("top_p"@, v.top_p) + opt_bool_member("web_search"@, v.web_search) + opt_u32_member("max_tokens"@, v.max_tokens));
        object(m)
    }
}

/// The inputs of a streamed completion: `params` with `stream` set.
pub open spec fn streaming(params: ChatParams) -> ChatParams {
    ChatParams { stream: Some(true), ..params }
}

/// OpenAI-compatible chat completions, optionally grounded with web search.
pub struct Chat<'a> {
    pub(crate) client: &'a Client,
}

impl<'a> Chat<'a> {
    /// The client this handle sends through.
    pub closed spec fn client_ref(self) -> &'a Client {
        self.client
    }
}

impl Client {
    /// OpenAI-compatible chat completions.
    pub fn chat(&self) -> (r: Chat<'_>)
        ensures
            r.client_ref() == self,
    {
        Chat { client: self }
    }
}

/// Creates chat completions.
pub struct ChatCompletions<'a> {
    pub(crate) client: &'a Client,
}

impl<'a> ChatCompletions<'a> {
    /// The client this handle sends through.
    pub closed spec fn client_ref(self) -> &'a Client {
        self.client
    }
}

impl<'a> Chat<'a> {
    /// Chat completions.
    pub fn completions(&self) -> (r: ChatCompletions<'a>)
        ensures
            r.client_ref() == self.client_ref(),
    {
        ChatCompletions { client: self.client }
    }
}

impl<'a> ChatCompletions<'a> {
    /// Create a chat completion. Set `web_search` to ground in live results.
    pub fn create(&self, params: ChatParams) -> (r: ApiRequest)
        ensures
            request_is(r, HttpMethod::Post, "/v1/chat/completions"@, Seq::empty(), Some(params.serialized())),
    {
        post("/v1/chat/completions".to_owned(), params.to_json())
    }

    /// Stream a chat completion: the same call with `stream` set to `true`.
    pub fn create_stream(&self, params: ChatParams) -> (r: ApiRequest)
        ensures
            request_is(
                r,
                HttpMethod::Post,
                "/v1/chat/completions"@,
                Seq::empty(),
                Some(streaming(params).serialized()),
            ),
    {
        let mut p = params;
        p.stream = Some(true);
        post("/v1/chat/completions".to_owned(), p.to_json())
    }

    /// Create a chat completion from a raw JSON body (advanced).
    pub fn create_raw(&self, body: Json) -> (r: ApiRequest)
        ensures
            request_is(r, HttpMethod::Post, "/v1/chat/completions"@, Seq::empty(), Some(body@)),
    {
        post("/v1/chat/completions".to_owned(), body)
    }
}


} // verus!

verus! {

use crate::json::{
    bool_field, document_field, field_of, group_field_lookup, member_count, number_field, present,
    str_field, string_array, strings_field,
};

/// Law: a chat message is sent as an object holding each field under its own name with its value,
/// each optional field only when it is set, and no other member.
pub proof fn chat_messages_are_sent_under_their_names(p: ChatMessage)
    ensures
        field_of(p.serialized(), "role"@) == Some(JsonView::Str(p.role@)),
        field_of(p.serialized(), "content"@) == Some(JsonView::Str(p.content@)),
        member_count(p.serialized()) == 1 + 1,
{
    broadcast use group_field_lookup;

    reveal_strlit("role");
    reveal_strlit("content");
    assert("role"@.len() != "content"@.len());
}


/// Law: a chat request body holds its messages, in order, each sent with its
/// own role and content and nothing else, and each other field under its own
/// name with its value, each optional one only when it is set, and no other
/// member.
pub proof fn chat_params_are_sent_under_their_names(p: ChatParams)
    ensures
        field_of(p.serialized(), "messages"@) matches Some(JsonView::Array(items)) && items.len()
            == p.messages@.len() && forall|i: int|
            0 <= i < items.len() ==> field_of(#[trigger] items[i], "role"@) == Some(
                JsonView::Str(p.messages@[i].role@),
            ) && field_of(items[i], "content"@) == Some(JsonView::Str(p.messages@[i].content@))
                && member_count(items[i]) == 2,
        field_of(p.serialized(), "model"@) == str_field(p.model),
        field_of(p.serialized(), "stream"@) == bool_field(p.stream),
        field_of(p.serialized(), "temperature"@) == document_field(p.temperature),
        field_of(p.serialized(), "top_p"@) == document_field(p.top_p),
        field_of(p.serialized(), "web_search"@) == bool_field(p.web_search),
        field_of(p.serialized(), "max_tokens"@) == number_field(p.max_tokens),
        member_count(p.serialized()) == 1 + present(p.model) + present(p.stream) + present(
            p.temperature,
        ) + present(p.top_p) + present(p.web_search) + present(p.max_tokens),
{
    broadcast use group_field_lookup;

    reveal_strlit("messages");
    reveal_strlit("model");
    reveal_strlit("stream");
    reveal_strlit("temperature");
    reveal_strlit("top_p");
    reveal_strlit("web_search");
    reveal_strlit("max_tokens");
    assert("messages"@.len() != "model"@.len());
    assert("messages"@.len() != "stream"@.len());
    assert("messages"@.len() != "temperature"@.len());
    assert("messages"@.len() != "top_p"@.len());
    assert("messages"@.len() != "web_search"@.len());
    assert("messages"@.len() != "max_tokens"@.len());
    assert("model"@.len() != "stream"@.len());
    assert("model"@.len() != "temperature"@.len());
    assert("model"@[0] != "top_p"@[0]);
    assert("model"@.len() != "web_search"@.len());
    assert("model"@.len() != "max_tokens"@.len());
    assert("stream"@.len() != "temperature"@.len());
    assert("stream"@.len() != "top_p"@.len());
    assert("stream"@.len() != "web_search"@.len());
    assert("stream"@.len() != "max_tokens"@.len());
    assert("temperature"@.len() != "top_p"@.len());
    assert("temperature"@.len() != "web_search"@.len());
    assert("temperature"@.len() != "max_tokens"@.len());
    assert("top_p"@.len() != "web_search"@.len());
    assert("top_p"@.len() != "max_tokens"@.len());
    assert("web_search"@[0] != "max_tokens"@[0]);
    let items = messages_view(p.messages@);
    assert forall|i: int| 0 <= i < items.len() implies field_of(#[trigger] items[i], "role"@) == Some(
        JsonView::Str(p.messages@[i].role@),
    ) && field_of(items[i], "content"@) == Some(JsonView::Str(p.messages@[i].content@))
        && member_count(items[i]) == 2 by {
        chat_messages_are_sent_under_their_names(p.messages@[i]);
    }
}

/// Law: a streamed completion is the same request with `stream` set to
/// `true`: every other member of the body is the one the plain request sends.
pub proof fn streaming_asks_for_a_stream(p: ChatParams)
    ensures
        field_of(streaming(p).serialized(), "stream"@) == Some(JsonView::Bool(true)),
        field_of(streaming(p).serialized(), "messages"@) == field_of(p.serialized(), "messages"@),
        field_of(streaming(p).serialized(), "model"@) == field_of(p.serialized(), "model"@),
        field_of(streaming(p).serialized(), "temperature"@) == field_of(p.serialized(), "temperature"@),
        field_of(streaming(p).serialized(), "top_p"@) == field_of(p.serialized(), "top_p"@),
        field_of(streaming(p).serialized(), "web_search"@) == field_of(p.serialized(), "web_search"@),
        field_of(streaming(p).serialized(), "max_tokens"@) == field_of(p.serialized(), "max_tokens"@),
        member_count(streaming(p).serialized()) == member_count(p.serialized()) + 1 - present(p.stream),
{
    chat_params_are_sent_under_their_names(p);
    chat_params_are_sent_under_their_names(streaming(p));
    assert(messages_view(streaming(p).messages@) == messages_view(p.messages@));
}

} // verus!
