pub mod arvix;
pub mod arxiv;
pub mod discord;
pub mod huggingface;
pub mod replicate;
pub mod shopify;
pub mod tool;
pub mod twitter;
