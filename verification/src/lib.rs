//! Real-time log delivery subsystem: an in-memory registry of live dashboard
//! connections keyed by tenant scope, a per-connection lifecycle state
//! machine, a delivery coordinator that turns a freshly persisted log into a
//! push attempt, and a FIFO retry queue for attempts that found no live
//! subscriber. The surrounding request handlers contribute their pure
//! decision logic; transport, persistence and clock access live outside the
//! library and hand in plain values.

pub mod application_handler;
pub mod auth_middleware;
pub mod config;
pub mod connection;
pub mod forget_password_handler;
pub mod gate;
pub mod interleaving;
pub mod jwt_service;
pub mod log_handler;
pub mod log_service;
pub mod models;
pub mod organization_handler;
pub mod otp_service;
pub mod password;
pub mod scope;
pub mod server;
pub mod signin_handler;
pub mod text;
pub mod user_handler;
pub mod websocket_queue;

pub use scope::TenantScope;
