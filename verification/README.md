# acp_p2p

Agents on a libp2p gossipsub mesh announce themselves, broadcast questions,
answer the ones their small knowledge base covers, and collect the answers
to their own questions.

- `src/` is the verified library (Verus):
  - `text.rs`: trimming, prefix stripping, splitting and substring search on strings;
  - `strmap.rs`: a map keyed by strings, with a `Map` view;
  - `protocol.rs`: the messages and agent identities;
  - `answerer.rs`: the keyword-based answering engine;
  - `state.rs`: a node's peers, pending questions and seen questions;
  - `node.rs`: what a node does with each message and console command;
  - `laws.rs`: properties spanning several operations, proved.
- `app/` is the program: command line, libp2p swarm, console, and the JSON
  wire format (serde) of the messages.
- `tests/` exercises the library.
