# malachite_codec

A verified protobuf codec for the messages of a Malachite BFT application.

- `src/proto.rs`: the messages, as trees of fields.
- `src/types.rs`: the values they stand for (heights, rounds, signatures, certificates,
  requests, responses, vote sets, signed messages, stream messages, statuses).
- `src/certificate.rs`, `src/sync.rs`, `src/votes.rs`, `src/messages.rs`: reading and
  writing each kind of message, each with a contract over the views of its arguments.
- `src/peer.rs`: peer identities, parsed by the Malachite peer crate.
- `src/laws.rs`: each value written into its message reads back as itself.
- `app/lib.rs`: conversions between these values and those of the Malachite crates.
