//! The Anthropic backend of the TARS runtime, and the command line of `tars`.
//!
//! A request goes out through [`request`], which translates it into the body that the backend
//! expects, and [`adapter`], which addresses and authorizes it. A streamed answer comes back
//! through [`sse`] and [`stream`]; batches go out and come back through [`submit`] and [`batch`].
//! The library sends nothing itself: it prepares calls and reads answers.
//!
//! Contracts speak of mathematical models: texts are sequences of characters, JSON values are
//! [`json::JsonTree`]s, headers are maps. What relates several functions is stated by the public
//! proof functions whose names begin with `law_`.

pub mod adapter;
pub mod answer_laws;
pub mod batch;
pub mod batch_laws;
pub mod chat;
pub mod cli;
pub mod cli_laws;
pub mod decode;
pub mod error;
pub mod event_laws;
pub mod http;
pub mod json;
pub mod json_laws;
pub mod operation_laws;
pub mod provider;
pub mod request;
pub mod request_laws;
pub mod sent_laws;
pub mod sse;
pub mod sse_laws;
pub mod stream;
pub mod stream_laws;
pub mod submit;
pub mod text;
pub mod text_laws;
pub mod tool_buffer;
