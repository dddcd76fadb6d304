//! A feed-polling pipeline: a poller turns a paginated "newest N" feed into a
//! gap-free, duplicate-free stream of new submissions under live-reconfigurable
//! scope and title filters, and a notification batcher accumulates the emitted
//! submissions and decides, from a size quota and a time quota, when to flush
//! them as one message.
//!
//! All transport (HTTP fetch, mail relay, clocks) stays outside: the library
//! produces plain fetch requests and consumes plain pages and tick times.

pub mod email;
pub mod error;
pub mod reddit_watcher;
pub mod settings;
pub mod submission;
pub mod title_filter;

pub use email::Mailer;
pub use error::WatcherError;
pub use reddit_watcher::RedditWatcher;
pub use title_filter::TitleFilter;
pub use settings::Settings;
pub use submission::Submission;
