//! A news reader's library: acquiring feeds and articles, and the state of
//! the reader that shows them.
//!
//! The heart is the acquisition pipeline: a streaming feed parser
//! ([`feed_parser`]), a cache store of two domains with time-to-live
//! semantics ([`cache`]), and the resolution policy that ties them together:
//! a fresh cache entry first, then the network, then a stale cache entry
//! ([`api`] for feeds, [`article_fetcher`] for articles). The library does
//! no I/O and reads no clock: the host performs the requests, keeps the
//! cache files and says what time it is.
//!
//! Around it stand the feeds on offer ([`feeds`]), the reader's state
//! ([`app`]) with the keys that drive it ([`events`]), the order of the
//! story list ([`sorting`]), the lines of text that are shown
//! ([`display`], [`date_utils`]), the store of images ([`image_cache`]) and
//! the settings ([`config`], [`theme`]).
//!
//! What is taken from other crates is stated, not proved: the XML tokenizer
//! ([`xml`]), the parsing and rendering of calendar dates ([`date_utils`]),
//! the extraction of an article from a page ([`article_fetcher`]) and a few
//! operations on text ([`text`]).

pub mod api;
pub mod app;
pub mod article_fetcher;
pub mod cache;
pub mod config;
pub mod date_utils;
pub mod display;
pub mod events;
pub mod feed_parser;
pub mod feeds;
pub mod image_cache;
pub mod sorting;
pub mod text;
pub mod theme;
pub mod xml;
