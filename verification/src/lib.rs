//! Request-translation core of a small HTTP facade over a web-scraping
//! service: it normalizes caller-supplied format tokens, builds the option
//! bundles handed to the scraping client, and maps call outcomes to HTTP
//! replies.

pub mod formats;
pub mod options;
pub mod relay;
