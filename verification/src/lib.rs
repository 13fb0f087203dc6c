//! Named columns of player and projectile state, read from the entity
//! snapshots of a demo tick by tick.
//!
//! The decoder of the demo fills a [`parser_settings::Parser`] with the
//! entities of a tick. [`parser_settings::Parser::collect_entities`] then
//! resolves each wanted field for each player, by the route that
//! [`field_kinds::classify`] gives the field, and appends the values to
//! the output columns.

pub mod collect_data;
pub mod entities;
pub mod field_kinds;
pub mod laws;
pub mod order;
pub mod parser_settings;
pub mod text;
pub mod variants;
