pub mod auth;
pub mod errors;
pub mod get_timeline;
pub mod post_tweet;
pub mod reply_to_tweet;
pub mod search_tweets;
pub mod server;
