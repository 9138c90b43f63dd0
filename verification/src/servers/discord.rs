pub mod add_reaction;
pub mod assign_role;
pub mod call;
pub mod errors;
pub mod get_channel_messages;
pub mod post_dm;
pub mod post_message;
pub mod post_webhook;
pub mod server;
