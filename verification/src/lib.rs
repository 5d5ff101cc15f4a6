//! Protobuf codec for the messages of a Malachite BFT application: sync requests and
//! responses, commit certificates, decided values, vote sets, vote extensions, signed
//! consensus messages, streamed proposal parts, proposed values and peer statuses.
//!
//! Each message is taken as the tree of its fields ([`proto`]) and turned into the value
//! it stands for ([`types`]), or back. Reading checks that every field the value needs is
//! there and reports the first one that is not; writing never loses a field. The payloads
//! that an application defines and converts itself (value ids, addresses, votes,
//! proposals, values, proposal parts) are type parameters: the functions receive the
//! results of those conversions where the messages hold them.
//!
//! Every function states its result over the views of its arguments, and [`laws`] proves
//! that each value written into its message reads back as itself; [`structure`] proves,
//! over all inputs, what each written message and each read value holds field by field,
//! and which error comes first when one does not read or write.

pub mod error;
pub mod types;
pub mod proto;
pub mod seqs;
pub mod peer;
pub mod certificate;
pub mod sync;
pub mod votes;
pub mod messages;
pub mod laws;
pub mod structure;
