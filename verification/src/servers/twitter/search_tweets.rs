//! The tool that searches the recent tweets.

use vstd::prelude::*;
use crate::content::{ErrorKind, TwitterErrorKind};
use crate::dispatch::Number;
use crate::effect::{fails, Effect, Outcome, Pair, SortOrder, Step, TwitterCall};
use crate::servers::twitter::auth::{
    credentials_of, end_with_tweets, ends_with_tweets, read_credentials, to_whole, whole_of,
    CredentialsView,
};
use crate::servers::twitter::errors::McpTwitterError;
use crate::text::{optional_view, same_text};

verus! {

/// The sort order that `name` names, if it names one.
pub open spec fn sort_order_of(name: Seq<char>) -> Option<SortOrder> {
    if name == "recency"@ {
        Some(SortOrder::Recency)
    } else if name == "relevancy"@ {
        Some(SortOrder::Relevancy)
    } else {
        None
    }
}

/// The sort order that `name` names, if it names one.
pub fn parse_sort_order(name: &str) -> (order: Option<SortOrder>)
    ensures
        order == sort_order_of(name@),
{
    if same_text(name, "recency") {
        Some(SortOrder::Recency)
    } else if same_text(name, "relevancy") {
        Some(SortOrder::Relevancy)
    } else {
        None
    }
}

/// The step asks for a search of the recent tweets.
pub open spec fn searches(
    step: Step<McpTwitterError>,
    credentials: CredentialsView,
    query: Seq<char>,
    max_results: Option<u64>,
    sort_order: Option<SortOrder>,
) -> bool {
    step matches Step::Perform(
        Effect::Twitter {
            credentials: used,
            call: TwitterCall::SearchRecent { query: asked, max_results: most, sort_order: order },
        },
    ) && used@ == credentials && asked@ == query && most == max_results && order == sort_order
}

/// What `search_tweets_tool` does, given the environment and the answers
/// so far.
///
/// It fails for the first credential that the environment lacks, then for
/// a query without text, then for a count below zero, then for a sort order
/// that is neither `recency` nor `relevancy`. It asks for the search, and
/// ends as the answer has it, with `TweetsNotFound` where nothing came back.
pub open spec fn search_tweets_step(
    step: Step<McpTwitterError>,
    env: Seq<Pair>,
    query: Seq<char>,
    count: Option<Number>,
    sort_order: Option<Seq<char>>,
    replies: Seq<Outcome>,
) -> bool {
    match credentials_of(env) {
        Err(kind) => fails(step, ErrorKind::Twitter(kind), Seq::empty()),
        Ok(credentials) => if query.len() == 0 {
            fails(
                step,
                ErrorKind::Twitter(TwitterErrorKind::InvalidQuery),
                "Search cannot be empty"@,
            )
        } else if count matches Some(c) && c.below_zero {
            fails(step, ErrorKind::Twitter(TwitterErrorKind::InvalidCount), count->0.text@)
        } else if sort_order matches Some(name) && sort_order_of(name) is None {
            fails(step, ErrorKind::Twitter(TwitterErrorKind::InvalidSortOrder), sort_order->0)
        } else if replies.len() == 0 {
            searches(
                step,
                credentials,
                query,
                match count {
                    Some(c) => Some(whole_of(c)),
                    None => None,
                },
                match sort_order {
                    Some(name) => sort_order_of(name),
                    None => None,
                },
            )
        } else {
            ends_with_tweets(step, replies[0], TwitterErrorKind::TweetsNotFound)
        },
    }
}

/// Searches the recent tweets for `query`: the next thing to ask for, or
/// the result, given the answers so far.
pub fn search_tweets_tool(
    env: &Vec<Pair>,
    query: &str,
    count: Option<&Number>,
    sort_order: Option<&str>,
    replies: &Vec<Outcome>,
) -> (step: Step<McpTwitterError>)
    ensures
        search_tweets_step(
            step,
            env@,
            query@,
            match count {
                Some(c) => Some(*c),
                None => None,
            },
            optional_view(sort_order),
            replies@,
        ),
{
    let credentials = match read_credentials(env) {
        Ok(credentials) => credentials,
        Err(error) => {
            return Step::Done(Err(error));
        },
    };
    if query.unicode_len() == 0 {
        return Step::Done(
            Err(McpTwitterError::InvalidQuery(String::from_str("Search cannot be empty"))),
        );
    }
    let max_results: Option<u64> = match count {
        Some(c) => {
            if c.below_zero {
                return Step::Done(Err(McpTwitterError::InvalidCount(c.text.clone())));
            }
            Some(to_whole(c))
        },
        None => None,
    };
    let order: Option<SortOrder> = match sort_order {
        Some(name) => match parse_sort_order(name) {
            Some(order) => Some(order),
            None => {
                return Step::Done(
                    Err(McpTwitterError::InvalidSortOrder(String::from_str(name))),
                );
            },
        },
        None => None,
    };
    if replies.len() == 0 {
        return Step::Perform(
            Effect::Twitter {
                credentials,
                call: TwitterCall::SearchRecent {
                    query: String::from_str(query),
                    max_results,
                    sort_order: order,
                },
            },
        );
    }
    end_with_tweets(&replies[0], McpTwitterError::TweetsNotFound)
}

} // verus!
