pub mod errors;
pub mod extract_paper_text;
pub mod server;
