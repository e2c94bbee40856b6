//! A plugin that gives a flow engine nodes for MongoDB: connect, find, insert, update, delete,
//! aggregate and close.
//!
//! Here stands what the plugin decides and computes. [`plugin`] runs a call up to what the driver
//! is asked for, by way of [`nodes`] and the connections in [`pool`]; [`describe`] says what the
//! nodes are; [`json`] goes between JSON and BSON. [`outside`] and [`calls`] are the passage to the
//! driver and to the JSON crate.
//!
//! Beside these stand proofs of what holds of them together. [`json_laws`] and [`convert_laws`]
//! speak of the way between JSON and BSON, [`field_laws`] and [`request_laws`] of what a
//! configuration asks of the driver, [`answer_laws`] of what comes of the answers, [`step_laws`] of
//! which node runs, [`pool_laws`] and [`node_laws`] of the connections, [`plugin_laws`] and
//! [`describe_laws`] of the descriptions, [`text_laws`] of texts and numbers, and [`view_laws`] of
//! how the values are seen in the contracts.
pub mod answer_laws;
pub mod bson;
pub mod calls;
pub mod collect;
pub mod convert_laws;
pub mod describe;
pub mod describe_laws;
pub mod double;
pub mod extended;
pub mod field_laws;
pub mod fields;
pub mod i18n;
pub mod json;
pub mod json_laws;
pub mod node_laws;
pub mod nodes;
pub mod outside;
pub mod plugin;
pub mod plugin_laws;
pub mod pool;
pub mod pool_laws;
pub mod request_laws;
pub mod result;
pub mod step_laws;
pub mod text;
pub mod text_laws;
pub mod value;
pub mod view_laws;
