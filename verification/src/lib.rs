//! A speech-recognition client core: the session/channel lifecycle state
//! machine of an MRCP recognizer client.
//!
//! The signaling/media transport stack is an external collaborator; this
//! crate holds the decisions the client makes on each inbound protocol
//! message, the construction of the outbound RECOGNIZE request, and the
//! frame feeder that answers the transport's synchronous audio pulls.
//! The embedding program performs the transport calls and hands the
//! resulting events back in as plain values.

pub mod messages;
pub mod text;
pub mod recognize;
pub mod feeder;
pub mod dispatch;
pub mod laws;
