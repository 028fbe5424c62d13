# axelar_solana

The decisions of a relayer between Axelar and Solana, and of the command line of its workspace,
written and proved in Verus.

- `src/` is the library. Nothing in it waits, sends or stores. Each function takes what has
  happened and says what is to be done next, and its contract says what that is.
  - `message`, `encoding`: how a contract call that the gateway program has logged becomes a
    message for Axelar.
  - `sentinel`, `worker`: the sentinel, which watches the gateway program.
  - `transports`, `cancellation`, `channel`: the two transports, the tokens that stop them and the
    channels between their actors.
  - `relayer`, `config`: how the relayer is set up and which transports it runs.
  - `cli`, `keys`: what a command asks for, and the private keys that it names.
  - `encoding_laws`, `worker_laws`: what holds of the encodings and of the sentinel's work as a
    whole. Other laws stand beside what they speak of.
  - `outside`: the types of other crates that the library carries.
- `app/` holds the loops that wait and act: tasks, timeouts, channels, arguments.
- `tests/` runs the library with the other crates linked.

Unproved are the contracts of the few functions that call other crates or the standard library.
Each stands in a doc comment: in `encoding` those of `hex`, of the text of a Solana signature and of
`String::from_utf8`; in `keys` that of `cosmrs`; in `cancellation` and `channel` those of tokens and
channels of `tokio`; in `outside` that of the copy of a URL.
