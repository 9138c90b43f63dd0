pub mod errors;
pub mod get_paper_by_id;
pub mod list_records;
pub mod query;
pub mod search_by_author;
pub mod search_papers;
