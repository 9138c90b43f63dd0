//! What a tool call hands back: content items, the envelope that carries
//! them, the uniform failure shape, and the response that joins the two.

use vstd::prelude::*;

verus! {

/// One item of content produced by a tool.
#[derive(Debug, PartialEq)]
pub enum ToolResponseContent {
    /// Plain text.
    Text { text: String },
    /// An image: its bytes in base64, and its MIME type.
    Image { data: String, mime_type: String },
}

/// The mathematical value of a content item.
pub enum ContentView {
    Text { text: Seq<char> },
    Image { data: Seq<char>, mime_type: Seq<char> },
}

impl View for ToolResponseContent {
    type V = ContentView;

    open spec fn view(&self) -> ContentView {
        match *self {
            ToolResponseContent::Text { text } => ContentView::Text { text: text@ },
            ToolResponseContent::Image { data, mime_type } => ContentView::Image {
                data: data@,
                mime_type: mime_type@,
            },
        }
    }
}

impl ToolResponseContent {
    /// A text item holding `text`.
    pub fn text(text: String) -> (item: ToolResponseContent)
        ensures
            item@ == (ContentView::Text { text: text@ }),
    {
        ToolResponseContent::Text { text }
    }

    /// An image item holding base64 `data` of type `mime_type`.
    pub fn image(data: String, mime_type: String) -> (item: ToolResponseContent)
        ensures
            item@ == (ContentView::Image { data: data@, mime_type: mime_type@ }),
    {
        ToolResponseContent::Image { data, mime_type }
    }
}

/// The values of a sequence of content items.
pub open spec fn content_views(items: Seq<ToolResponseContent>) -> Seq<ContentView> {
    items.map_values(|item: ToolResponseContent| item@)
}

/// The success payload of a tool call: one or more content items.
#[derive(Debug, PartialEq)]
pub struct ContentEnvelope {
    items: Vec<ToolResponseContent>,
}

impl View for ContentEnvelope {
    type V = Seq<ContentView>;

    closed spec fn view(&self) -> Seq<ContentView> {
        content_views(self.items@)
    }
}

impl ContentEnvelope {
    #[verifier::type_invariant]
    spec fn holds_content(&self) -> bool {
        self.items@.len() >= 1
    }

    /// The envelope that carries exactly `item`.
    pub fn single(item: ToolResponseContent) -> (envelope: ContentEnvelope)
        ensures
            envelope@ == seq![item@],
    {
        let mut items: Vec<ToolResponseContent> = Vec::new();
        items.push(item);
        proof {
            assert(content_views(items@) =~= seq![item@]);
        }
        ContentEnvelope { items }
    }

    /// The envelope that carries `items`, or `None` when there are none.
    pub fn from_items(items: Vec<ToolResponseContent>) -> (envelope: Option<ContentEnvelope>)
        ensures
            items@.len() == 0 <==> envelope is None,
            envelope matches Some(e) ==> e@ == content_views(items@),
    {
        if items.len() == 0 {
            None
        } else {
            Some(ContentEnvelope { items })
        }
    }

    /// This envelope with `item` behind what it carries.
    pub fn and(self, item: ToolResponseContent) -> (envelope: ContentEnvelope)
        ensures
            envelope@ == self@.push(item@),
    {
        let mut items = self.items;
        items.push(item);
        proof {
            assert(content_views(items@) =~= content_views(self.items@).push(item@));
        }
        ContentEnvelope { items }
    }

    /// The number of items carried.
    pub fn len(&self) -> (n: usize)
        ensures
            n == self@.len(),
            n >= 1,
    {
        proof {
            use_type_invariant(self);
        }
        self.items.len()
    }

    /// The items carried, in order.
    pub fn items(&self) -> (items: &Vec<ToolResponseContent>)
        ensures
            content_views(items@) == self@,
            items@.len() >= 1,
    {
        proof {
            use_type_invariant(self);
        }
        &self.items
    }

    /// Gives up the envelope for the items it carried.
    pub fn into_items(self) -> (items: Vec<ToolResponseContent>)
        ensures
            content_views(items@) == self@,
            items@.len() >= 1,
    {
        proof {
            use_type_invariant(&self);
        }
        self.items
    }
}

/// The reasons for which resolving an invocation can fail, before any
/// handler runs.
#[derive(Clone, Copy, Debug, PartialEq, Eq, Structural)]
pub enum DispatchErrorKind {
    /// No tool of the requested name is registered.
    UnknownTool,
    /// A required argument is missing, or an argument has the wrong shape.
    InvalidArguments,
}

/// The reasons for which an arXiv tool can fail.
#[derive(Clone, Copy, Debug, PartialEq, Eq, Structural)]
pub enum ArxivErrorKind {
    HttpError,
    ApiError,
}

/// The reasons for which a Discord tool can fail.
#[derive(Clone, Copy, Debug, PartialEq, Eq, Structural)]
pub enum DiscordErrorKind {
    ResponseSerializeError,
    InvalidContent,
    InvalidWebhookURL,
    InvalidUserID,
    InvalidChannelID,
    InvalidMessageID,
    DiscordApiError,
    InvalidRoleID,
    InvalidGuildID,
    MissingDiscordToken,
}

/// The reasons for which a HuggingFace tool can fail.
#[derive(Clone, Copy, Debug, PartialEq, Eq, Structural)]
pub enum HuggingFaceErrorKind {
    HttpError,
    MissingToken,
    JsonParseError,
    ApiError,
}

/// The reasons for which a Replicate tool can fail.
#[derive(Clone, Copy, Debug, PartialEq, Eq, Structural)]
pub enum ReplicateErrorKind {
    HttpError,
    MissingToken,
    ContentParseError,
    InvalidResponse,
    InvalidHeaderValue,
}

/// The reasons for which a Shopify tool can fail.
#[derive(Clone, Copy, Debug, PartialEq, Eq, Structural)]
pub enum ShopifyErrorKind {
    ResponseSerializeError,
    HttpError,
    ApiError,
    InvalidInput,
    MissingShopifyDomain,
    MissingShopifyAccessToken,
    InvalidProductId,
    InvalidOrderId,
    InvalidCustomerId,
}

/// The reasons for which a Twitter tool can fail.
#[derive(Clone, Copy, Debug, PartialEq, Eq, Structural)]
pub enum TwitterErrorKind {
    ResponseSerializeError,
    MissingTwitterApiKey,
    MissingTwitterApiSecret,
    MissingTwitterAccessToken,
    MissingTwitterAccessTokenSecret,
    TwitterApiError,
    InvalidLatestID,
    InvalidCount,
    InvalidInput,
    TweetNotFound,
    TweetsNotFound,
    InvalidReplyID,
    InvalidQuery,
    InvalidSortOrder,
    UserNotFound,
}

/// The machine-checkable reason of a failure. Every integration keeps its
/// own closed set of reasons.
#[derive(Clone, Copy, Debug, PartialEq, Eq, Structural)]
pub enum ErrorKind {
    Dispatch(DispatchErrorKind),
    Arxiv(ArxivErrorKind),
    Discord(DiscordErrorKind),
    HuggingFace(HuggingFaceErrorKind),
    Replicate(ReplicateErrorKind),
    Shopify(ShopifyErrorKind),
    Twitter(TwitterErrorKind),
}

/// The uniform failure shape handed to the caller, whichever integration
/// produced the failure.
#[derive(Debug, PartialEq)]
pub struct NormalizedError {
    /// Which part of the system failed: an integration's name, or
    /// `"dispatch"`.
    pub domain: String,
    /// Why it failed.
    pub kind: ErrorKind,
    /// A message for people.
    pub message: String,
}

/// The mathematical value of a normalized error.
pub struct NormalizedErrorView {
    pub domain: Seq<char>,
    pub kind: ErrorKind,
    pub message: Seq<char>,
}

impl View for NormalizedError {
    type V = NormalizedErrorView;

    open spec fn view(&self) -> NormalizedErrorView {
        NormalizedErrorView { domain: self.domain@, kind: self.kind, message: self.message@ }
    }
}

/// What is sent back for one invocation.
#[derive(Debug, PartialEq)]
pub enum Response {
    /// The tool succeeded; its content.
    Content(ContentEnvelope),
    /// The tool, or the resolution of the call, failed.
    Error(NormalizedError),
}

/// The mathematical value of a response.
pub enum ResponseView {
    Content(Seq<ContentView>),
    Error(NormalizedErrorView),
}

impl View for Response {
    type V = ResponseView;

    open spec fn view(&self) -> ResponseView {
        match *self {
            Response::Content(envelope) => ResponseView::Content(envelope@),
            Response::Error(error) => ResponseView::Error(error@),
        }
    }
}

} // verus!
