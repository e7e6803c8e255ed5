//! Talking to an iZone climate controller.
//!
//! The controller is a device on the local network that runs the air
//! conditioning of a house: the system as a whole, its zones with their
//! dampers, its stored schedules, and accessories such as an evaporative
//! cooler and a ventilation unit. It is queried and commanded by JSON
//! posted over HTTP.
//!
//! This library holds everything about that conversation that can be
//! decided without the network:
//!
//! - [`codec`]: the wire encodings of flags, temperatures and times;
//! - [`json`]: JSON values and the reading of single members;
//! - [`models`]: the records that the controller reports, and their decoding;
//! - [`validation`]: the ranges of what can be set;
//! - [`payload`]: the commands and queries, and the JSON that is sent for them;
//! - [`commands`]: one function for each operation, which checks its
//!   arguments and gives what is to be sent, and one that gives what is
//!   said once it was done;
//! - [`api`]: the two requests, and what the replies to them mean;
//! - [`status`] and [`helpers`]: the texts that are shown of a record;
//! - [`order`]: the order in which records are listed;
//! - [`notice`]: what is said once something was done, and the boxes that
//!   it is shown in;
//! - [`tables`]: the tables in which a record is shown;
//! - [`constants`]: addresses, limits and the table of zones;
//! - [`text`]: numerals and comparisons of texts.
//!
//! Nothing here sends or prints: a caller posts the requests it is given,
//! and hands the replies back.

pub mod api;
pub mod codec;
pub mod commands;
pub mod constants;
pub mod helpers;
pub mod json;
pub mod models;
pub mod notice;
pub mod order;
pub mod payload;
pub mod status;
pub mod tables;
pub mod text;
pub mod validation;
