//! Incremental, resumable scraping of Steam user reviews.
//!
//! The library holds the logic of a scrape: the review query and its legality
//! rules, the decisions of the paginating poller, the deduplicating write buffer
//! and the reconstruction of a scrape's state from previously persisted records.
//! Network, file and terminal I/O are left to the caller.

pub mod cache;
pub mod error;
pub mod language;
pub mod options;
pub mod query;
pub mod records;
pub mod resume;
pub mod score;
pub mod scraper;
pub mod text;
