//! Searching the source of many projects of a GitLab-compatible server.
//!
//! The library holds the decisions of a search: which requests to make, how a
//! paginated listing is walked, how the outcomes of concurrent fetches are
//! joined under a failure policy, and how matches become deep-linked results.
//! The caller performs the requests and hands back what came of them.
pub mod client;
pub mod model;
pub mod paging;
pub mod resolve;
pub mod search;
pub mod text;

pub use client::GitlabClient;
pub use model::{Project, ReturnResult, SearchBlob, SearchResult};
pub use paging::{PageWalk, WalkState, PAGE_SIZE};
pub use resolve::{combine_outcomes, FailurePolicy, Selector};
pub use search::{aggregate, finish_search, get_len, start_search};
