# bdk-ldk-sample

A lightning node that keeps its coins in an on-chain wallet. `src/` is the verified library: it
makes the node's decisions and says in contracts, which Verus proves, what they are. `app/` is
the program around it: it talks to the disk, the network and the console and carries out what
the library decides. `tests/` runs the library on concrete values.

## Usage

```
<electrum-url> <ldk_storage_directory_path> [<ldk-peer-listening-port>] [bitcoin-network] [announced-node-name announced-listen-addr...]
```

`bitcoin-network` is `testnet` (the default), `regtest` or `signet`. The listening port defaults
to 9735, and can be left out before a network as well. A node announces itself only if it is given an address to announce; its name has at most
32 bytes.

## The library

- `args`: the arguments and their defaults
- `startup`: the node's files, its first block, where it listens, whom it reconnects to
- `tasks`: what the node does over and over
- `seed`: the seed on disk, or a fresh one that has to be stored first
- `wallet`: the master key and the descriptors of the wallet's account
- `payments`: what is known of each payment
- `events`: what the node does on each event, and on the answers to what it did
- `history`: what holds of the payments over any run of events
- `funding`, `forwarding`: the output that funds a channel, and when payments are passed on
- `console`, `text`, `hex_utils`, `bytes`: the lines that are written, and their parts

What the library has from `bdk`, `bitcoin`, `bitcoin-bech32` and `rand` it calls through small
functions whose contracts are trusted; each says what it claims of the function that it calls.
