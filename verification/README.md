# reliable_broadcast

A Byzantine reliable broadcast: one node broadcasts a value, and all honest
nodes that deliver a value deliver the same one, as long as fewer than a third
of the participants are faulty.

- `src/` is the protocol, written and proved in Verus. A node's part in a
  broadcast is a `Session`; `ProtocolNode::advance` takes it from stage to stage.
- `app/` runs sessions over a network: it signs, checks signatures, sends,
  receives and keeps time. The transport and the signature scheme are traits.
- `tests/` runs whole broadcasts over a simulated network, and the parts alone.

## What is proved

- Agreement, totality and validity of honest nodes that run the protocol
  together (`src/guarantees.rs`), over the model in `src/system.rs`, for any
  number of participants.
- That all honest nodes deliver the initiator's data when nothing fails and what
  honest nodes send arrives (`src/delivery.rs`), step by step from each message
  that comes in to the outcome.
- What every session keeps to whatever happens outside, such as that a node sends
  each kind of message at most once, counts nobody twice and loses no valid message
  that has arrived (`src/laws.rs`).
- The exact effect of every function, in its contract.

The model takes for granted that a signature of an honest node holds only if that
node made the signed statement, that a hash belongs to one content, that the Init
messages of a broadcast list the same participants, and that only those
participants' messages are counted.
