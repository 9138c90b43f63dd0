pub mod add_product_image;
pub mod admin;
pub mod create_order;
pub mod create_product;
pub mod delete_order;
pub mod delete_product;
pub mod errors;
pub mod get_order;
pub mod get_product;
pub mod list_customers;
pub mod server;
pub mod update_product;
