//! Session acquisition and presentation coordination for a tray-anchored
//! desktop window that signs a user in against an OAuth provider.
pub mod alerts;
pub mod exchange;
pub mod listener;
pub mod models;
pub mod placement;
pub mod repos;
pub mod session;
pub mod state;
pub mod text;
pub mod tray;
pub mod visibility;
