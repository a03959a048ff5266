//! Decision core of a community assistant for a chat platform.
//!
//! The assistant runs three flows, each a state machine over plain values:
//!
//! * `ticket_system`: a member who writes to the assistant in private is
//!   led through a short conversation (language, category, request) that
//!   ends in a ticket, a channel of its own in which the staff answers.
//!   Tickets left silent are reminded after a day and closed after two.
//! * `voice_system`: a member who joins a trigger room gets a voice room
//!   of their own, which passes on when they leave and disappears with its
//!   last occupant.
//! * `giveaway_system`: the staff starts a giveaway that runs for a given
//!   time; members enter and withdraw with one control; at the end the
//!   winners are drawn at random.
//!
//! Nothing here talks to the platform or to a database. Every function
//! takes what happened as plain values, changes the state it is given, and
//! says what is to be done: which message to send, which channel to create
//! or delete. The caller does that, and reports back what the platform
//! answered where the flow goes on from there. Identities of members,
//! channels and messages are the platform's numbers; the ticket and
//! giveaway flows hold them as `i64`, the form in which they are stored,
//! the voice flow as `u64`. Times are seconds since the Unix epoch.
//!
//! A state is changed through `&mut` only, so whoever holds it decides one
//! event at a time. Where the platform has to act before a flow can go on,
//! the state says so: a member whose ticket is being opened is not heard
//! until the caller reports the channel created or the creation failed.

pub mod access;
pub mod clock;
pub mod commands;
pub mod config;
pub mod giveaway_system;
pub mod text;
pub mod ticket_system;
pub mod voice_system;
