//! Selection and dispatch of ready content to publishing channels.
//!
//! Once an hour one item is picked from a backlog, handed to a bus that fans
//! it out, and published by a worker on each channel as a post followed by
//! a reply. This library holds the decisions of that pipeline and proves
//! what it promises of them. It makes no call to a store, a bus or a
//! channel: it says which call is due, the caller makes it and hands the
//! answer back.
//!
//! - [`model`], [`store`]: the items, the store's records and their decoding
//! - [`clock`], [`selector`]: which item is due now
//! - [`dispatcher`], [`settings`]: one invocation of select, publish, delete
//! - [`pipeline`]: what holds of every invocation, against a model of store
//!   and bus
//! - [`channel`], [`twitter`]: a batch of messages on one channel
//! - [`fanout`]: what holds of every batch, against a model of a channel
//! - [`intake`], [`feed`], [`http`]: taking content in and writing new content
//! - [`outside`]: what is taken on trust from other crates

pub mod channel;
pub mod clock;
pub mod dispatcher;
pub mod fanout;
pub mod feed;
pub mod http;
pub mod intake;
pub mod model;
pub mod outside;
pub mod pipeline;
pub mod selector;
pub mod settings;
pub mod store;
pub mod text;
pub mod twitter;
