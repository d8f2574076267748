# sender

A load generator that sends balance transfers to a Substrate node at a steady rate.

The library in `src/` makes the decisions and is verified with Verus:

- `plan`: how many sender tasks run, and which receivers each of them has;
- `payload`: the transfers and batches that are submitted;
- `account`, `lookup`: an account's nonce, read from the chain's state, with a few attempts;
- `connect`: the node's address, and the attempts at connecting to it;
- `seeding`: funding the sender accounts;
- `worker`: one sender task;
- `scale`, `block`: what a block tells about the chain's time and its transactions;
- `monitor`: the throughput over the last blocks, and when a round of sending is over;
- `session`: connecting, running rounds, and starting over;
- `failure`, `text`: what the text of an error says;
- `trace`: sequences of events, for the proofs.

`worker`, `session`, `lookup`, `connect` and `seeding` are state machines. The binary in `app/`
performs the actions that they ask for and tells them what came of it.

One number is computed in `app/`: the time from one submission of a sender task to its next, which
is rounded as floating point rounds it. The library takes it as an argument.
