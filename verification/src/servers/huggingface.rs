pub mod errors;
pub mod get_model_info;
pub mod get_model_sample_images;
pub mod get_readme;
pub mod search_models;
pub mod server;
pub mod whoami;
