//! A verified core for a scheduled topic-digest pipeline.
//!
//! Topics are configured with a weekday schedule. For each due topic the
//! pipeline rewrites the topic into optimized search queries, fans the
//! queries out to a content provider, aggregates the per-query results,
//! normalizes the aggregate into a markdown template via a completion
//! collaborator, renders the markdown to HTML, and hands the HTML to an
//! email collaborator. The decision logic of every stage is verified here;
//! the network and SMTP calls themselves are performed by the embedding
//! application, which drives the [`pipeline::TopicRun`] state machine.

pub mod aggregate;
pub mod bing;
pub mod bing_models;
pub mod email;
pub mod errors;
pub mod normalize;
pub mod open_ai;
pub mod open_ai_models;
pub mod optimize;
pub mod perplexity;
pub mod perplexity_models;
pub mod pipeline;
pub mod render;
pub mod schedule;
