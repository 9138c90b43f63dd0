//! How a tool talks to the outside world without touching it: a tool is a
//! function from what the outside world has answered so far to the next
//! thing to ask of it, or to the tool's result. The surrounding program
//! performs what is asked and hands the answers back.

use vstd::prelude::*;
use crate::content::{ContentEnvelope, ContentView, ErrorKind};
use crate::json::{Json, JsonDoc, JsonView};
use crate::text::strings_view;

verus! {

/// A name with a value: a query parameter, a header, a variable of the
/// environment.
#[derive(Debug, PartialEq)]
pub struct Pair {
    pub name: String,
    pub value: String,
}

impl View for Pair {
    type V = (Seq<char>, Seq<char>);

    open spec fn view(&self) -> (Seq<char>, Seq<char>) {
        (self.name@, self.value@)
    }
}

/// The values of a sequence of pairs.
pub open spec fn pairs_view(pairs: Seq<Pair>) -> Seq<(Seq<char>, Seq<char>)> {
    pairs.map_values(|pair: Pair| pair@)
}

/// The place of the first pair called `name`, or the number of pairs where
/// there is none.
pub open spec fn pair_position(pairs: Seq<Pair>, name: Seq<char>) -> int
    decreases pairs.len(),
{
    if pairs.len() == 0 {
        0
    } else if pairs[0].name@ == name {
        0
    } else {
        1 + pair_position(pairs.drop_first(), name)
    }
}

/// The value of the first pair called `name`.
pub open spec fn pair_value(pairs: Seq<Pair>, name: Seq<char>) -> Option<Seq<char>> {
    let at = pair_position(pairs, name);
    if at < pairs.len() {
        Some(pairs[at].value@)
    } else {
        None
    }
}

/// The first pair called `name` stands at `pair_position`, and no pair
/// before it has that name.
pub proof fn lemma_pair_position(pairs: Seq<Pair>, name: Seq<char>)
    ensures
        0 <= pair_position(pairs, name) <= pairs.len(),
        pair_position(pairs, name) < pairs.len() ==> pairs[pair_position(pairs, name)].name@
            == name,
        forall|i: int| 0 <= i < pair_position(pairs, name) ==> (#[trigger] pairs[i]).name@ != name,
    decreases pairs.len(),
{
    if pairs.len() > 0 && pairs[0].name@ != name {
        let rest = pairs.drop_first();
        lemma_pair_position(rest, name);
        assert forall|i: int| 0 <= i < pair_position(pairs, name) implies (
        #[trigger] pairs[i]).name@ != name by {
            if i > 0 {
                assert(pairs[i] == rest[i - 1]);
            }
        }
    }
}

/// The value of the first pair called `name`, if there is one.
pub fn find_pair<'a>(pairs: &'a Vec<Pair>, name: &str) -> (found: Option<&'a String>)
    ensures
        match found {
            Some(value) => pair_value(pairs@, name@) == Some(value@),
            None => pair_value(pairs@, name@) is None,
        },
{
    let key = String::from_str(name);
    let mut i: usize = 0;
    proof {
        lemma_pair_position(pairs@, name@);
    }
    while i < pairs.len()
        invariant
            i <= pairs.len(),
            i <= pair_position(pairs@, name@),
        decreases pairs.len() - i,
    {
        if pairs[i].name == key {
            return Some(&pairs[i].value);
        }
        i += 1;
    }
    None
}

/// The pair of `name` and `value`.
pub fn pair(name: &str, value: &str) -> (pair: Pair)
    ensures
        pair@ == (name@, value@),
{
    Pair { name: String::from_str(name), value: String::from_str(value) }
}

/// No pairs at all.
pub fn no_pairs() -> (pairs: Vec<Pair>)
    ensures
        pairs_view(pairs@) == Seq::<(Seq<char>, Seq<char>)>::empty(),
{
    let pairs: Vec<Pair> = Vec::new();
    proof {
        assert(pairs_view(pairs@) =~= Seq::<(Seq<char>, Seq<char>)>::empty());
    }
    pairs
}

/// Puts the pair of `name` and `value` behind `pairs`.
pub fn push_pair(pairs: &mut Vec<Pair>, name: &str, value: &str)
    ensures
        pairs_view(final(pairs)@) == pairs_view(old(pairs)@).push((name@, value@)),
{
    pairs.push(pair(name, value));
    proof {
        assert(pairs_view(pairs@) =~= pairs_view(old(pairs)@).push((name@, value@)));
    }
}

/// Whether `c` can stand in the value of a header: a tab, or any character
/// from the space on but for the delete character.
pub open spec fn is_header_char(c: char) -> bool {
    c == '\t' || (' ' <= c && c != '\x7f')
}

/// Whether `value` can be the value of a header.
pub open spec fn is_header_value(value: Seq<char>) -> bool {
    forall|i: int| 0 <= i < value.len() ==> is_header_char(#[trigger] value[i])
}

/// Tells whether `value` can be the value of a header.
pub fn check_header_value(value: &str) -> (ok: bool)
    ensures
        ok == is_header_value(value@),
{
    let chars = crate::text::to_chars(value);
    let mut i: usize = 0;
    while i < chars.len()
        invariant
            i <= chars.len(),
            forall|k: int| 0 <= k < i ==> is_header_char(#[trigger] chars@[k]),
        decreases chars.len() - i,
    {
        let c = chars[i];
        if !(c == '\t' || (' ' <= c && c != '\x7f')) {
            return false;
        }
        i += 1;
    }
    true
}

/// The method of an HTTP request.
#[derive(Clone, Copy, Debug, PartialEq, Eq, Structural)]
pub enum HttpMethod {
    Get,
    Post,
    Put,
    Delete,
}

/// An HTTP request to send.
#[derive(Debug, PartialEq)]
pub struct HttpRequest {
    pub method: HttpMethod,
    pub url: String,
    /// Parameters to append to the URL as its query.
    pub query: Vec<Pair>,
    pub headers: Vec<Pair>,
    /// The body, sent as JSON, if there is one.
    pub body: Option<Json>,
}

/// The mathematical value of an HTTP request.
pub struct HttpRequestView {
    pub method: HttpMethod,
    pub url: Seq<char>,
    pub query: Seq<(Seq<char>, Seq<char>)>,
    pub headers: Seq<(Seq<char>, Seq<char>)>,
    pub body: Option<JsonView>,
}

/// The request to get `url` with `headers`, without query and without body.
pub open spec fn get_of(url: Seq<char>, headers: Seq<(Seq<char>, Seq<char>)>) -> HttpRequestView {
    HttpRequestView { method: HttpMethod::Get, url, query: Seq::empty(), headers, body: None }
}

impl HttpRequest {
    /// The request to get `url` with `headers`, without query and without
    /// body.
    pub fn get(url: String, headers: Vec<Pair>) -> (request: HttpRequest)
        ensures
            request@ == get_of(url@, pairs_view(headers@)),
    {
        HttpRequest { method: HttpMethod::Get, url, query: no_pairs(), headers, body: None }
    }
}

impl View for HttpRequest {
    type V = HttpRequestView;

    open spec fn view(&self) -> HttpRequestView {
        HttpRequestView {
            method: self.method,
            url: self.url@,
            query: pairs_view(self.query@),
            headers: pairs_view(self.headers@),
            body: match self.body {
                Some(json) => Some(json@),
                None => None,
            },
        }
    }
}

/// A call into the Discord API.
#[derive(Debug, PartialEq)]
pub enum DiscordCall {
    /// React to a message with an emoji.
    CreateReaction { channel_id: u64, message_id: u64, emoji: String },
    /// Fetch a member of a guild.
    GetMember { guild_id: u64, user_id: u64 },
    /// Give a member of a guild a role.
    AddRole { guild_id: u64, user_id: u64, role_id: u64 },
    /// Fetch the latest messages of a channel, at most `limit` of them.
    GetMessages { channel_id: u64, limit: u8 },
    /// Open the direct-message channel with a user.
    CreateDmChannel { user_id: u64 },
    /// Post a message to a channel.
    Say { channel_id: u64, content: String },
    /// Look a webhook up by its URL.
    ResolveWebhook { url: String },
    /// Post a message through a webhook and wait for the message.
    ExecuteWebhook { url: String, content: String },
}

/// The four secrets that sign a call into the Twitter API.
#[derive(Debug, PartialEq)]
pub struct TwitterCredentials {
    pub api_key: String,
    pub api_secret: String,
    pub access_token: String,
    pub access_token_secret: String,
}

/// The order in which a search lists its tweets.
#[derive(Clone, Copy, Debug, PartialEq, Eq, Structural)]
pub enum SortOrder {
    Recency,
    Relevancy,
}

/// A call into the Twitter API.
#[derive(Debug, PartialEq)]
pub enum TwitterCall {
    /// Fetch the user that the credentials belong to.
    GetMe,
    /// Fetch tweets of a user.
    GetUserTweets { user_id: u64, max_results: Option<u64>, since_id: Option<u64> },
    /// Post a tweet, as a reply where `in_reply_to` names a tweet.
    PostTweet { text: String, in_reply_to: Option<u64> },
    /// Search the recent tweets.
    SearchRecent { query: String, max_results: Option<u64>, sort_order: Option<SortOrder> },
}

/// Something that a tool asks the outside world to do.
#[derive(Debug, PartialEq)]
pub enum Effect {
    /// Send the request and read the body of the response as text.
    Http(HttpRequest),
    /// Send the request and read the body of the response as bytes.
    HttpBytes(HttpRequest),
    /// Read `text` as JSON, and say what stands under each of `keys`.
    ReadJson { text: String, keys: Vec<String> },
    /// Write the value as JSON text.
    RenderJson(Json),
    /// Make sure that the directory `path` exists.
    EnsureDir { path: String },
    /// Write `bytes` to the file `name` in the directory `dir`.
    WriteFile { dir: String, name: String, bytes: Vec<u8> },
    /// Extract the text of the PDF file `name` in the directory `dir`.
    ExtractPdfText { dir: String, name: String },
    /// Remove the file `name` in the directory `dir`.
    RemoveFile { dir: String, name: String },
    /// Call the Discord API as the bot that `token` belongs to.
    Discord { token: String, call: DiscordCall },
    /// Call the Twitter API with `credentials`.
    Twitter { credentials: TwitterCredentials, call: TwitterCall },
}

/// What the outside world answered to an effect.
#[derive(Debug, PartialEq)]
pub enum Outcome {
    /// It could not be done. The text is the message of the failure.
    Failed(String),
    /// It was done, but what came back could not be written down. The text
    /// is the message of that failure.
    Malformed(String),
    /// It was done, and nothing came back.
    Nothing,
    /// It was done, and text came back.
    Text(String),
    /// It was done, and an identifier came back.
    Id(u64),
    /// JSON was read.
    Json(JsonDoc),
    /// A response came: its status code, its status as a line of text, and
    /// its body as text.
    Http { status: u16, status_line: String, body: String },
    /// A response came: its status code, its status as a line of text, and
    /// its body as bytes.
    HttpBytes { status: u16, status_line: String, body: Vec<u8> },
}

/// The message under which an outcome counts as a failure where it is not
/// of the kind that the effect brings: the message of the failure for a
/// failed effect, and a fixed one for any other outcome.
pub open spec fn failure_text(outcome: Outcome) -> Seq<char> {
    match outcome {
        Outcome::Failed(message) => message@,
        Outcome::Malformed(message) => message@,
        _ => "unexpected outcome"@,
    }
}

impl Outcome {
    /// The message under which this outcome counts as a failure.
    pub fn failure(&self) -> (message: String)
        ensures
            message@ == failure_text(*self),
    {
        match self {
            Outcome::Failed(message) => message.clone(),
            Outcome::Malformed(message) => message.clone(),
            _ => String::from_str("unexpected outcome"),
        }
    }
}

/// Whether an HTTP status code lies in the success class, 200 to 299.
pub open spec fn is_success(status: u16) -> bool {
    200 <= status < 300
}

/// Tells whether `status` lies in the success class.
pub fn status_is_success(status: u16) -> (ok: bool)
    ensures
        ok == is_success(status),
{
    200 <= status && status < 300
}

/// What a failure is, apart from how it is worded: its kind and the detail
/// that it carries.
pub struct FailureView {
    pub kind: ErrorKind,
    pub detail: Seq<char>,
}

/// The next move of a tool.
#[derive(Debug, PartialEq)]
pub enum Step<E> {
    /// Ask the outside world for this, and come back with the answer.
    Perform(Effect),
    /// The tool has ended, with content or with a failure.
    Done(Result<ContentEnvelope, E>),
}

/// The step asks for `request` to be sent, the body to be read as text.
pub open spec fn sends<E>(step: Step<E>, request: HttpRequestView) -> bool {
    step matches Step::Perform(Effect::Http(sent)) && sent@ == request
}

/// The step asks for `request` to be sent, the body to be read as bytes.
pub open spec fn fetches<E>(step: Step<E>, request: HttpRequestView) -> bool {
    step matches Step::Perform(Effect::HttpBytes(sent)) && sent@ == request
}

/// The step asks for `json` to be written as text.
pub open spec fn renders<E>(step: Step<E>, json: JsonView) -> bool {
    step matches Step::Perform(Effect::RenderJson(value)) && value@ == json
}

/// The step asks for `text` to be read as JSON, and for what stands under
/// `keys`.
pub open spec fn reads_json<E>(step: Step<E>, text: Seq<char>, keys: Seq<Seq<char>>) -> bool {
    step matches Step::Perform(Effect::ReadJson { text: read, keys: wanted }) && read@ == text
        && strings_view(wanted@) == keys
}

/// The step ends the tool with the failure of kind `kind` and detail
/// `detail`.
pub open spec fn fails<E: View<V = FailureView>>(
    step: Step<E>,
    kind: ErrorKind,
    detail: Seq<char>,
) -> bool {
    step matches Step::Done(Err(error)) && error@ == (FailureView { kind, detail })
}

/// The step ends the tool with `content`.
pub open spec fn yields<E>(step: Step<E>, content: Seq<ContentView>) -> bool {
    step matches Step::Done(Ok(envelope)) && envelope@ == content
}

/// The step ends the tool with one item of text, `text`.
pub open spec fn yields_text<E>(step: Step<E>, text: Seq<char>) -> bool {
    yields(step, seq![ContentView::Text { text }])
}

/// The most that a tool asks of the outside world in one call.
pub const MOST_EFFECTS: usize = 5;

/// A copy of `bytes`.
pub fn copy_bytes(bytes: &Vec<u8>) -> (copy: Vec<u8>)
    ensures
        copy@ == bytes@,
{
    let mut copy: Vec<u8> = Vec::new();
    let mut i: usize = 0;
    while i < bytes.len()
        invariant
            i <= bytes.len(),
            copy@ == bytes@.take(i as int),
        decreases bytes.len() - i,
    {
        copy.push(bytes[i]);
        proof {
            assert(bytes@.take(i + 1) =~= bytes@.take(i as int).push(bytes@[i as int]));
        }
        i += 1;
    }
    proof {
        assert(bytes@.take(bytes@.len() as int) =~= bytes@);
    }
    copy
}

/// Where an HTTP exchange stands.
pub enum Exchange<'a> {
    /// The request is still to be sent: ask for this.
    Ask(Effect),
    /// The response is there.
    Reply { status: u16, status_line: &'a String, body: &'a String },
    /// The exchange failed, with this message.
    Failed(String),
}

/// Whether `exchange` is where the exchange of `request` stands, given
/// that its answer, if it is there, is the answer number `at`.
pub open spec fn exchange_stands(
    exchange: Exchange,
    request: HttpRequestView,
    replies: Seq<Outcome>,
    at: int,
) -> bool {
    if replies.len() <= at {
        exchange matches Exchange::Ask(Effect::Http(sent)) && sent@ == request
    } else {
        match replies[at] {
            Outcome::Http { status, status_line, body } => exchange matches Exchange::Reply {
                status: s,
                status_line: l,
                body: b,
            } && s == status && *l == status_line && *b == body,
            other => exchange matches Exchange::Failed(message) && message@ == failure_text(
                other,
            ),
        }
    }
}

/// Where the exchange of `request` stands: whether to send it, or what
/// came back. Its answer, if it is there, is the answer number `at`.
pub fn exchange<'a>(request: HttpRequest, replies: &'a Vec<Outcome>, at: usize) -> (exchange:
    Exchange<'a>)
    ensures
        exchange_stands(exchange, request@, replies@, at as int),
{
    if replies.len() <= at {
        Exchange::Ask(Effect::Http(request))
    } else {
        match &replies[at] {
            Outcome::Http { status, status_line, body } => Exchange::Reply {
                status: *status,
                status_line,
                body,
            },
            other => Exchange::Failed(other.failure()),
        }
    }
}

/// Where the reading of JSON stands.
pub enum Reading<'a> {
    /// The text is still to be read: ask for this.
    Ask(Effect),
    /// The document was read.
    Read(&'a JsonDoc),
    /// The reading failed, with this message.
    Failed(String),
}

/// Whether `reading` is where the reading of `text` with `keys` stands,
/// given that its answer, if it is there, is the answer number `at`.
pub open spec fn reading_stands(
    reading: Reading,
    text: Seq<char>,
    keys: Seq<Seq<char>>,
    replies: Seq<Outcome>,
    at: int,
) -> bool {
    if replies.len() <= at {
        reading matches Reading::Ask(Effect::ReadJson { text: read, keys: wanted }) && read@
            == text && strings_view(wanted@) == keys
    } else {
        match replies[at] {
            Outcome::Json(doc) => reading matches Reading::Read(read) && *read == doc,
            other => reading matches Reading::Failed(message) && message@ == failure_text(other),
        }
    }
}

/// Where the reading of `text` as JSON stands: whether to ask for it, or
/// what was read. Its answer, if it is there, is the answer number `at`.
pub fn reading<'a>(
    text: &String,
    keys: Vec<String>,
    replies: &'a Vec<Outcome>,
    at: usize,
) -> (reading: Reading<'a>)
    ensures
        reading_stands(reading, text@, strings_view(keys@), replies@, at as int),
{
    if replies.len() <= at {
        Reading::Ask(Effect::ReadJson { text: text.clone(), keys })
    } else {
        match &replies[at] {
            Outcome::Json(doc) => Reading::Read(doc),
            other => Reading::Failed(other.failure()),
        }
    }
}

/// No keys at all.
pub fn no_keys() -> (keys: Vec<String>)
    ensures
        strings_view(keys@) == Seq::<Seq<char>>::empty(),
{
    let keys: Vec<String> = Vec::new();
    proof {
        assert(strings_view(keys@) =~= Seq::<Seq<char>>::empty());
    }
    keys
}

/// Puts `key` behind `keys`.
pub fn push_key(keys: &mut Vec<String>, key: &str)
    ensures
        strings_view(final(keys)@) == strings_view(old(keys)@).push(
            key@,
        ),
{
    keys.push(String::from_str(key));
    proof {
        assert(strings_view(keys@) =~= strings_view(old(keys)@).push(key@));
    }
}

} // verus!
