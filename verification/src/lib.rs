//! Decision logic of a download daemon.
pub mod book;
pub mod daemon;
pub mod enrich;
pub mod fresh;
pub mod health;
pub mod index_pass;
pub mod job;
pub mod media;
pub mod order;
pub mod predb_feed;
pub mod rss;
pub mod schedule;
pub mod script;
pub mod settings;
pub mod sidecar;
pub mod stall;
pub mod startup;
pub mod storecut;
pub mod stream;
pub mod text;
pub mod tune;
pub mod upkeep;
pub mod value;
pub mod watch;
pub mod watchdog;
pub mod worker;
