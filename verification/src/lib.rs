//! Decisions of a storefront backend: accounts, sessions, carts and catalogue queries.

pub mod admin_middleware;
pub mod auth_middleware;
pub mod auth_service;
pub mod cart_service;
pub mod clock;
pub mod config;
pub mod cookie;
pub mod models;
pub mod object_id;
pub mod otp;
pub mod password;
pub mod product_service;
pub mod s3;
pub mod send_email;
pub mod status;
pub mod text;
pub mod token;
pub mod unique;
pub mod user_service;
