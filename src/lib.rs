//! A conversational relay between a chat account and a remote harm-reduction
//! question service: query encoding, response decoding, reply routing and the
//! listener's acknowledgment discipline.
pub mod multipart;
pub mod text;
pub mod document;
pub mod router;
pub mod relay;
