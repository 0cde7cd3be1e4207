//! Spot-perpetual and funding-rate arbitrage: the decision logic.

pub mod auth;
mod clock;
pub mod codec;
pub mod config;
pub mod db;
pub mod decimal;
pub mod engine;
pub mod frontend;
pub mod funding;
pub mod gateway;
pub mod health;
pub mod json;
pub mod order_manager;
pub mod ring;
pub mod risk;
pub mod strategy;
pub mod text;
pub mod types;
