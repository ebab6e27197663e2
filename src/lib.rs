//! A dispatch layer for queue-consuming workers: a job capability decodes a
//! delivery and turns a job into actions, and the dispatcher turns those
//! actions into the acknowledgments and publishes to perform on a channel.

pub mod action;
pub mod dispatch;
pub mod properties;
pub mod publish;
