//! A crawler that classifies every file of a directory tree against a corpus
//! of license texts. The library holds the decisions of the crawl: how the
//! file filter is built, what the walker does with each entry, and what is
//! reported for each file.

pub mod corpus;
pub mod crawl;
pub mod filter;
pub mod report;
pub mod walk;

pub use corpus::{classify, clone_ref, share};
pub use crawl::{prepare_crawl, CrawlError, CrawlSetup};
pub use filter::{build_filter, FilterError};
pub use report::{report_for, Report};
pub use walk::{decide_entry, EntryAction, EntryEvent, WalkDecision};
