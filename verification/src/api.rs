//! Streaming chat completions: the request, and what the lines of the reply come
//! to.

use vstd::prelude::*;
use vstd::string::*;
use crate::config;
use crate::config::{Api, ApiView};
use crate::json;
use crate::json::{Json, JsonTree};
use crate::text;
use crate::text_laws;

verus! {

/// What the worker tells the user interface.
#[derive(Debug)]
pub enum Msg {
    /// More of the answer.
    Chunk(String),
    /// What went wrong.
    Error(String),
    /// Nothing more will come.
    Done,
}

/// What a `Msg` says.
pub enum MsgView {
    Chunk(Seq<char>),
    Error(Seq<char>),
    Done,
}

impl View for Msg {
    type V = MsgView;

    open spec fn view(&self) -> MsgView {
        match self {
            Msg::Chunk(s) => MsgView::Chunk(s@),
            Msg::Error(s) => MsgView::Error(s@),
            Msg::Done => MsgView::Done,
        }
    }
}

/// Who speaks.
#[derive(Debug, Clone, Copy, PartialEq, Eq, Structural)]
pub enum Role {
    System,
    User,
}

/// One message of a chat.
#[derive(Debug)]
pub struct Message {
    pub role: Role,
    pub content: String,
}

/// What a `Message` says.
pub struct MessageView {
    pub role: Role,
    pub content: Seq<char>,
}

impl View for Message {
    type V = MessageView;

    open spec fn view(&self) -> MessageView {
        MessageView { role: self.role, content: self.content@ }
    }
}

/// What a list of messages says.
pub open spec fn chat(messages: Seq<Message>) -> Seq<MessageView> {
    Seq::new(messages.len(), |i: int| messages[i]@)
}

/// The name of a role on the wire.
pub open spec fn role_name(role: Role) -> Seq<char> {
    match role {
        Role::System => "system"@,
        Role::User => "user"@,
    }
}

/// A message on the wire.
pub open spec fn message_tree(message: MessageView) -> JsonTree {
    JsonTree::Object(
        seq![
            ("role"@, JsonTree::Text(role_name(message.role))),
            ("content"@, JsonTree::Text(message.content)),
        ],
    )
}

/// The members of a request body that every request has.
pub open spec fn base_body(api: ApiView, messages: Seq<MessageView>) -> Seq<
    (Seq<char>, JsonTree),
> {
    seq![
        ("model"@, JsonTree::Text(api.model)),
        (
            "messages"@,
            JsonTree::Array(Seq::new(messages.len(), |i: int| message_tree(messages[i]))),
        ),
        ("stream"@, JsonTree::Bool(true)),
        ("temperature"@, JsonTree::Double(api.temperature)),
        ("max_tokens"@, JsonTree::Number(text::decimal(api.max_tokens as nat))),
    ]
}

/// The body of a request: `extra` is merged straight into it.
pub open spec fn body_tree(api: ApiView, messages: Seq<MessageView>) -> JsonTree {
    JsonTree::Object(json::with_members(base_body(api, messages), api.extra))
}

/// One HTTP request.
#[derive(Debug)]
pub struct Request {
    pub url: String,
    pub headers: Vec<(String, String)>,
    pub body: Json,
    /// In seconds.
    pub timeout: u64,
}

/// What a `Request` says.
pub struct RequestView {
    pub url: Seq<char>,
    pub headers: Seq<(Seq<char>, Seq<char>)>,
    pub body: JsonTree,
    pub timeout: u64,
}

/// What headers say.
pub open spec fn headers_of(headers: Seq<(String, String)>) -> Seq<(Seq<char>, Seq<char>)> {
    Seq::new(headers.len(), |i: int| (headers[i].0@, headers[i].1@))
}

impl View for Request {
    type V = RequestView;

    open spec fn view(&self) -> RequestView {
        RequestView {
            url: self.url@,
            headers: headers_of(self.headers@),
            body: self.body.tree(),
            timeout: self.timeout,
        }
    }
}

/// The request for a chat. Without a key there is no authorization.
pub open spec fn request_for(api: ApiView, key: Seq<char>, messages: Seq<MessageView>) -> RequestView {
    RequestView {
        url: config::endpoint(api.url),
        headers: if key.len() > 0 {
            seq![
                ("Content-Type"@, "application/json"@),
                ("Authorization"@, "Bearer "@ + key),
            ]
        } else {
            seq![("Content-Type"@, "application/json"@)]
        },
        body: body_tree(api, messages),
        timeout: api.timeout,
    }
}

/// A message on the wire.
fn message_json(message: &Message) -> (r: Json)
    ensures
        r.tree() == message_tree(message@),
{
    let role = match message.role {
        Role::System => "system",
        Role::User => "user",
    };
    let mut members: Vec<(String, Json)> = Vec::new();
    members.push(("role".to_string(), Json::Text(role.to_string())));
    members.push(("content".to_string(), Json::Text(message.content.clone())));
    assert(json::members_of(members@) == seq![
        ("role"@, JsonTree::Text(role_name(message@.role))),
        ("content"@, JsonTree::Text(message@.content)),
    ]);
    Json::Object(members)
}

/// The body of a request.
pub fn request_body(api: &Api, messages: &Vec<Message>) -> (r: Json)
    ensures
        r.tree() == body_tree(api@, chat(messages@)),
{
    let mut list: Vec<Json> = Vec::new();
    let mut i: usize = 0;
    while i < messages.len()
        invariant
            i <= messages@.len(),
            list@.len() == i,
            forall|k: int|
                0 <= k < i ==> (#[trigger] list@[k]).tree() == message_tree(messages@[k]@),
        decreases messages@.len() - i,
    {
        list.push(message_json(&messages[i]));
        i = i + 1;
    }
    let ghost chat_trees = Seq::new(
        chat(messages@).len(),
        |i: int| message_tree(chat(messages@)[i]),
    );
    assert(json::trees(list@) == chat_trees);
    let mut members: Vec<(String, Json)> = Vec::new();
    members.push(("model".to_string(), Json::Text(api.model.clone())));
    members.push(("messages".to_string(), Json::Array(list)));
    members.push(("stream".to_string(), Json::Bool(true)));
    members.push(("temperature".to_string(), Json::Double(api.temperature)));
    members.push(("max_tokens".to_string(), Json::Number(text::show(api.max_tokens as u64))));
    assert(json::members_of(members@) == base_body(api@, chat(messages@)));
    json::set_members(&mut members, &api.extra);
    Json::Object(members)
}

/// The request for a chat.
pub fn build_request(api: &Api, key: &str, messages: &Vec<Message>) -> (r: Request)
    ensures
        r@ == request_for(api@, key@, chat(messages@)),
{
    let mut headers: Vec<(String, String)> = Vec::new();
    headers.push(("Content-Type".to_string(), "application/json".to_string()));
    if !key.is_empty() {
        headers.push(("Authorization".to_string(), text::concat("Bearer ", key)));
    }
    let r = Request {
        url: config::endpoint_url(api.url.as_str()),
        headers,
        body: request_body(api, messages),
        timeout: api.timeout,
    };
    assert(r@.headers == request_for(api@, key@, chat(messages@)).headers);
    r
}

/// What a line of the reply comes to.
#[derive(Debug)]
pub enum LineStep {
    /// Nothing.
    Skip,
    /// More of the answer.
    Chunk(String),
    /// The answer is complete.
    Finish,
}

/// What a `LineStep` says.
pub enum LineStepView {
    Skip,
    Chunk(Seq<char>),
    Finish,
}

impl View for LineStep {
    type V = LineStepView;

    open spec fn view(&self) -> LineStepView {
        match self {
            LineStep::Skip => LineStepView::Skip,
            LineStep::Chunk(s) => LineStepView::Chunk(s@),
            LineStep::Finish => LineStepView::Finish,
        }
    }
}

/// The payload of a line that carries data.
pub open spec fn payload(line: Seq<char>) -> Option<Seq<char>> {
    let trimmed = text::trimmed(line);
    if "data:"@.is_prefix_of(trimmed) {
        Some(text::trimmed(trimmed.skip("data:"@.len() as int)))
    } else {
        None
    }
}

/// The piece of the answer that a document carries: the content of the delta of
/// its first choice, where it is a text.
pub open spec fn delta_content(document: JsonTree) -> Seq<char> {
    match document.member("choices"@).element(0) {
        Some(choice) => match choice.member("delta"@).member("content"@).text() {
            Some(s) => s,
            None => seq![],
        },
        None => seq![],
    }
}

/// What a line comes to, where the JSON reader makes `document` of its payload.
pub open spec fn step_for(line: Seq<char>, document: Option<JsonTree>) -> LineStepView {
    match payload(line) {
        None => LineStepView::Skip,
        Some(data) => if data == "[DONE]"@ {
            LineStepView::Finish
        } else {
            match document {
                None => LineStepView::Skip,
                Some(tree) => if delta_content(tree).len() == 0 {
                    LineStepView::Skip
                } else {
                    LineStepView::Chunk(delta_content(tree))
                },
            }
        },
    }
}

/// What a line comes to.
pub open spec fn line_step(line: Seq<char>) -> LineStepView {
    step_for(
        line,
        match payload(line) {
            Some(data) => json::document(data),
            None => None,
        },
    )
}

/// The piece of the answer that a document carries.
pub fn chunk_of(document: &Json) -> (r: String)
    ensures
        r@ == delta_content(document.tree()),
{
    match document.member("choices") {
        Some(choices) => match choices.element(0) {
            Some(choice) => match choice.member("delta") {
                Some(delta) => match delta.member("content") {
                    Some(content) => match content.text() {
                        Some(s) => s.to_string(),
                        None => String::new(),
                    },
                    None => String::new(),
                },
                None => String::new(),
            },
            None => String::new(),
        },
        None => String::new(),
    }
}

/// The payload of a line that carries data.
pub fn payload_of(line: &str) -> (r: Option<&str>)
    ensures
        r is Some == payload(line@) is Some,
        r matches Some(data) ==> Some(data@) == payload(line@),
{
    match text::strip_prefix(text::trim(line), "data:") {
        Some(rest) => Some(text::trim(rest)),
        None => None,
    }
}

/// What a document that the JSON reader made of a payload comes to.
pub fn read_document(document: Option<Json>) -> (r: LineStep)
    ensures
        r@ == (match document {
            None => LineStepView::Skip,
            Some(value) => if delta_content(value.tree()).len() == 0 {
                LineStepView::Skip
            } else {
                LineStepView::Chunk(delta_content(value.tree()))
            },
        }),
{
    match document {
        None => LineStep::Skip,
        Some(value) => {
            let chunk = chunk_of(&value);
            if chunk.as_str().is_empty() {
                LineStep::Skip
            } else {
                LineStep::Chunk(chunk)
            }
        },
    }
}

/// What a line of the reply comes to.
pub fn read_line(line: &str) -> (r: LineStep)
    ensures
        r@ == line_step(line@),
{
    match payload_of(line) {
        None => LineStep::Skip,
        Some(data) => {
            if text::same(data, "[DONE]") {
                return LineStep::Finish;
            }
            read_document(json::parse(data))
        },
    }
}

/// What `extra` sets reaches the request body: the last value given for a key
/// counts, also over a member that every request has.
pub proof fn law_extra_reaches_the_body(api: ApiView, messages: Seq<MessageView>, i: int)
    requires
        0 <= i < api.extra.len(),
        forall|j: int| i < j < api.extra.len() ==> (#[trigger] api.extra[j]).0 != api.extra[i].0,
    ensures
        body_tree(api, messages).member(api.extra[i].0) == api.extra[i].1,
{
    json::law_set_members(base_body(api, messages), api.extra, api.extra[i].0);
}

/// A member that every request has stays as it is where `extra` does not name
/// it.
pub proof fn law_body_members(api: ApiView, messages: Seq<MessageView>, i: int)
    requires
        0 <= i < base_body(api, messages).len(),
        forall|j: int|
            0 <= j < api.extra.len() ==> (#[trigger] api.extra[j]).0 != base_body(
                api,
                messages,
            )[i].0,
    ensures
        body_tree(api, messages).member(base_body(api, messages)[i].0) == base_body(
            api,
            messages,
        )[i].1,
{
    reveal_strlit("model");
    reveal_strlit("messages");
    reveal_strlit("stream");
    reveal_strlit("temperature");
    reveal_strlit("max_tokens");
    let base = base_body(api, messages);
    json::law_set_members(base, api.extra, base[i].0);
    json::lemma_position(base, base[i].0);
    let n = json::position(base, base[i].0);
    assert("model"@.len() == 5 && "messages"@.len() == 8 && "stream"@.len() == 6
        && "temperature"@.len() == 11 && "max_tokens"@.len() == 10);
    assert(n == i);
}

/// Whether `extra` sets a member of this name.
pub open spec fn named(api: ApiView, key: Seq<char>) -> bool {
    exists|i: int| 0 <= i < api.extra.len() && (#[trigger] api.extra[i]).0 == key
}

/// The body asks the configured model, with the configured temperature and limit,
/// for a stream, and holds the messages in order with their roles and contents. A
/// member that `extra` sets is another matter, and nothing else is in the body.
pub proof fn law_body(api: ApiView, messages: Seq<MessageView>, i: int, key: Seq<char>)
    ensures
        ({
            let body = body_tree(api, messages);
            &&& !named(api, "model"@) ==> body.member("model"@) == JsonTree::Text(api.model)
            &&& !named(api, "stream"@) ==> body.member("stream"@) == JsonTree::Bool(true)
            &&& !named(api, "temperature"@) ==> body.member("temperature"@) == JsonTree::Double(
                api.temperature,
            )
            &&& !named(api, "max_tokens"@) ==> body.member("max_tokens"@) == JsonTree::Number(
                text::decimal(api.max_tokens as nat),
            )
            &&& !named(api, "messages"@) ==> {
                &&& body.member("messages"@) matches JsonTree::Array(list)
                &&& list.len() == messages.len()
                &&& 0 <= i < list.len() ==> {
                    &&& list[i].member("role"@) == JsonTree::Text(
                        if messages[i].role == Role::System { "system"@ } else { "user"@ },
                    )
                    &&& list[i].member("content"@) == JsonTree::Text(messages[i].content)
                    &&& list[i].has_member(key) ==> key == "role"@ || key == "content"@
                }
            }
            &&& body.has_member(key) ==> {
                ||| named(api, key)
                ||| key == "model"@
                ||| key == "messages"@
                ||| key == "stream"@
                ||| key == "temperature"@
                ||| key == "max_tokens"@
            }
        }),
{
    let base = base_body(api, messages);
    let body = body_tree(api, messages);
    if !named(api, "model"@) {
        lemma_unnamed(api, "model"@);
        law_body_members(api, messages, 0);
    }
    if !named(api, "messages"@) {
        lemma_unnamed(api, "messages"@);
        law_body_members(api, messages, 1);
        if 0 <= i < messages.len() {
            lemma_message(messages[i], key);
        }
    }
    if !named(api, "stream"@) {
        lemma_unnamed(api, "stream"@);
        law_body_members(api, messages, 2);
    }
    if !named(api, "temperature"@) {
        lemma_unnamed(api, "temperature"@);
        law_body_members(api, messages, 3);
    }
    if !named(api, "max_tokens"@) {
        lemma_unnamed(api, "max_tokens"@);
        law_body_members(api, messages, 4);
    }
    json::law_members_after_setting(base, api.extra, key);
    json::lemma_position(base, key);
    if JsonTree::Object(base).has_member(key) {
        let n = json::position(base, key);
        assert(base[n].0 == key);
        assert(n == 0 || n == 1 || n == 2 || n == 3 || n == 4);
    }
}

proof fn lemma_unnamed(api: ApiView, key: Seq<char>)
    requires
        !named(api, key),
    ensures
        forall|j: int| 0 <= j < api.extra.len() ==> (#[trigger] api.extra[j]).0 != key,
{
}

proof fn lemma_message(message: MessageView, key: Seq<char>)
    ensures
        message_tree(message).member("role"@) == JsonTree::Text(
            if message.role == Role::System { "system"@ } else { "user"@ },
        ),
        message_tree(message).member("content"@) == JsonTree::Text(message.content),
        message_tree(message).has_member(key) ==> key == "role"@ || key == "content"@,
{
    reveal_strlit("role");
    reveal_strlit("content");
    assert("role"@.len() == 4 && "content"@.len() == 7);
    let members = message_tree(message)->Object_0;
    let none = Seq::<(Seq<char>, JsonTree)>::empty();
    let first = seq![members[0]];
    let second = seq![members[1]];
    assert(members == none + seq![("role"@, members[0].1)] + second);
    json::law_member(none, "role"@, members[0].1, second, JsonTree::Null);
    assert(members == first + seq![("content"@, members[1].1)] + none);
    json::law_member(first, "content"@, members[1].1, none, JsonTree::Null);
    json::lemma_position(members, key);
    if json::position(members, key) < members.len() {
        assert(members[json::position(members, key)].0 == key);
    }
}

/// A request goes to the endpoint below the configured URL, with the configured
/// timeout, as JSON; a key goes along as a bearer token, and without one there is
/// no authorization.
pub proof fn law_request(api: ApiView, key: Seq<char>, messages: Seq<MessageView>)
    ensures
        ({
            let r = request_for(api, key, messages);
            &&& r.url == config::endpoint(api.url)
            &&& r.timeout == api.timeout
            &&& r.body == body_tree(api, messages)
            &&& r.headers.len() == (if key.len() > 0 { 2nat } else { 1nat })
            &&& r.headers[0] == ("Content-Type"@, "application/json"@)
            &&& key.len() > 0 ==> r.headers[1] == ("Authorization"@, "Bearer "@ + key)
        }),
{
}

/// A line carries data exactly where it starts with `data:`, but for white space.
pub proof fn law_data_lines(line: Seq<char>)
    ensures
        payload(line) is Some <==> "data:"@.is_prefix_of(text::trimmed_start(line)),
{
    reveal_strlit("data:");
    let mark = "data:"@;
    let head = text::trimmed_start(line);
    let k = text_laws::lemma_trimmed_end(head);
    let all = text::trimmed(line);
    assert(all == head.take(k));
    text_laws::law_characters(':');
    assert(mark.len() == 5 && mark[4] == ':');
    if mark.is_prefix_of(head) {
        assert(head[4] == mark[4]) by {
            assert(head.subrange(0, 5)[4] == head[4]);
        }
        assert(k >= 5) by {
            if k < 5 {
                assert(text::space(head[4]));
            }
        }
        assert(all.subrange(0, 5) == head.subrange(0, 5));
        assert(mark.is_prefix_of(all));
    }
    if mark.is_prefix_of(all) {
        assert(head.subrange(0, 5) == all.subrange(0, 5));
        assert(mark.is_prefix_of(head));
    }
}

/// The payload of a line is what follows `data:`, as it stands but for the white
/// space around it.
pub proof fn law_payload(before: Seq<char>, gap: Seq<char>, data: Seq<char>, after: Seq<char>)
    requires
        forall|i: int| 0 <= i < before.len() ==> text::space(#[trigger] before[i]),
        forall|i: int| 0 <= i < gap.len() ==> text::space(#[trigger] gap[i]),
        forall|i: int| 0 <= i < after.len() ==> text::space(#[trigger] after[i]),
        data.len() > 0 ==> !text::space(data[0]) && !text::space(data.last()),
    ensures
        payload(before + "data:"@ + gap + data + after) == Some(data),
{
    reveal_strlit("data:");
    let mark = "data:"@;
    let none = Seq::<char>::empty();
    let line = before + mark + gap + data + after;
    text_laws::law_characters('d');
    text_laws::law_characters(':');
    assert(mark.len() == 5 && mark[0] == 'd' && mark[4] == ':');
    if data.len() > 0 {
        let s = mark + gap + data;
        assert(s[0] == 'd' && s.last() == data.last());
        assert(line == before + s + after);
        text_laws::law_trimmed_between(before, s, after);
        assert(s.subrange(0, 5) == mark);
        assert(s.skip(5) == gap + data + none);
        text_laws::law_trimmed_between(gap, data, none);
    } else {
        let tail = gap + after;
        assert forall|i: int| 0 <= i < tail.len() implies text::space(#[trigger] tail[i]) by {
            if i < gap.len() {
                assert(tail[i] == gap[i]);
            } else {
                assert(tail[i] == after[i - gap.len()]);
            }
        }
        assert(mark.last() == ':');
        assert(line == before + mark + tail);
        text_laws::law_trimmed_between(before, mark, tail);
        assert(mark.subrange(0, 5) == mark);
        assert(mark.skip(5) == none);
        assert(text::trimmed(none) == none);
        assert(data == none);
    }
}

/// The piece of the answer in a document is the content of the delta of its first
/// choice, unchanged, character by character; where there is no such text there is
/// no piece.
pub proof fn law_piece(document: JsonTree, choices: Seq<JsonTree>, s: Seq<char>)
    ensures
        document.member("choices"@) == JsonTree::Array(choices) && choices.len() > 0
            && choices[0].member("delta"@).member("content"@) == JsonTree::Text(s)
            ==> delta_content(document) == s,
        delta_content(document).len() > 0 ==> {
            &&& document.member("choices"@) matches JsonTree::Array(list)
            &&& list.len() > 0
            &&& list[0].member("delta"@).member("content"@) == JsonTree::Text(
                delta_content(document),
            )
        },
{
}

/// A line that carries no data, or data that is no document or holds no piece, is
/// passed over; `[DONE]` ends the answer; a piece comes through unchanged.
pub proof fn law_line(line: Seq<char>, data: Seq<char>, choices: Seq<JsonTree>, s: Seq<char>)
    ensures
        payload(line) is None ==> line_step(line) is Skip,
        payload(line) == Some("[DONE]"@) ==> line_step(line) is Finish,
        payload(line) == Some(data) && data != "[DONE]"@ ==> {
            &&& json::document(data) is None ==> line_step(line) is Skip
            &&& json::document(data) matches Some(tree) ==> {
                &&& !(line_step(line) is Finish)
                &&& tree.member("choices"@) == JsonTree::Array(choices) && choices.len() > 0
                    && choices[0].member("delta"@).member("content"@) == JsonTree::Text(s) ==> {
                    &&& s.len() > 0 ==> line_step(line) == LineStepView::Chunk(s)
                    &&& s.len() == 0 ==> line_step(line) is Skip
                }
                &&& line_step(line) matches LineStepView::Chunk(piece) ==> piece.len() > 0 && piece
                    == delta_content(tree)
            }
        },
{
    if json::document(data) is Some {
        law_piece(json::document(data)->0, choices, s);
    }
}

} // verus!
