# ocoin

A small proof-of-work ledger written in Verus. The library (`src/`) holds the
ledger's rules with their contracts and proofs; `app/` holds the command-line
programs around it.

## Library

- `hex`, `hashing`, `keys`, `text`: hexadecimal text, SHA-256 hash texts (via
  `sha2`), secp256k1 keys and signatures (via `k256`), and the words of a
  command line.
- `named`: a list of named entries, read as a map from names to values.
- `standalone`: a ledger kept by one node; a wallet's public key is the hash
  of its private key.
- `blockchain`: the signed ledger that nodes share: transactions, signed
  transactions, blocks, the chain, wallets, and the single-node command line.
- `mempool`: a pool of waiting transactions, the messages pools exchange, and
  how a pool answers them.
- `validator`: a validator node's state and the decisions it takes on commands
  and messages.

Amounts are binary64 numbers. The library holds them as their bit patterns
and hashes them; the balance arithmetic on them, which decides whether a block
may join the chain, is done in `app/ledger.rs`, and its verdict is handed to
the library.

## Programs

`app/main.rs` runs one of three programs: `client` (a chain kept alone),
`pool` (a pool of waiting transactions) and `node` (a validator node, the
default). Nodes and pools reach each other over plain TCP, one JSON message
per line.

Hash texts take in an amount's eight bytes in the machine's own byte order.
Each function that hashes, signs, cancels or mines by hash has a variant that
takes the byte order as an argument (`hash_with_byte_order`,
`prev_hash_with_byte_order`, `sign_with_byte_order`, `cancel_with_byte_order`,
`mine_with_byte_order`, `new_transaction_with_byte_order`); their contracts
are exact, and the plain functions call them with the order that
`hashing::native_order_is_little` reports.
