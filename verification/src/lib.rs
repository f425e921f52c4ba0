//! Merchant payment backend core: checkout orchestration over two payment
//! rails, request admission (token verification plus sliding-window rate
//! limiting), and the persistence-facing record stores with their invariants.

pub mod auth;
pub mod checkout_repository;
pub mod checkout_service;
pub mod config;
pub mod crypto;
pub mod donation_page_repository;
pub mod format;
pub mod ids;
pub mod jwt;
pub mod limiter;
pub mod models;
pub mod nodeless_address_repository;
pub mod qr;
pub mod requests;
pub mod store_repository;
pub mod store_service;
pub mod user_repository;
