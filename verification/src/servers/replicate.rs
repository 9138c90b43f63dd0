pub mod edit_image;
pub mod edit_image_with_mask;
pub mod errors;
pub mod generate_image;
pub mod get_model_info;
pub mod get_prediction;
pub mod list_models;
pub mod predict;
pub mod server;
pub mod whoami;
