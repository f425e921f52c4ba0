//! Application configuration. Loading and parsing the configuration file is
//! the caller's concern; the library works on these plain values.

use vstd::prelude::*;

verus! {

#[derive(Clone, Copy, Debug)]
pub struct AppConfig {
    pub auth: AuthConfig,
    pub pricing: PricingConfig,
    pub stores: StoresConfig,
    pub donation_pages: DonationPagesConfig,
    pub rate_limiter: RateLimiterConfig,
}

#[derive(Clone, Copy, Debug)]
pub struct AuthConfig {
    pub min_password_length: usize,
    pub require_strong_password: bool,
    pub enable_email_auth: bool,
    pub enable_nost_auth: bool,
    pub enable_identifier_auth: bool,
    pub jwt_expiry_seconds: u64,
}

#[derive(Clone, Copy, Debug)]
pub struct PricingConfig {
    pub base_fee_sat: u32,
    pub fee_rate_percent: u32,
}

#[derive(Clone, Copy, Debug)]
pub struct StoresConfig {
    pub max_stores_per_user: u32,
}

#[derive(Clone, Copy, Debug)]
pub struct DonationPagesConfig {
    pub max_donation_pages_per_user: u32,
}

#[derive(Clone, Copy, Debug)]
pub struct RateLimiterConfig {
    pub api_requests_per_second: u32,
    pub api_requests_per_minute: u32,
    pub checkout_requests_per_minute: u32,
    pub auth_requests_per_hour: u32,
}

} // verus!
