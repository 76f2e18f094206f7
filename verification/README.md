# d-sign

A distributed threshold-signature tool: a `threshold`-of-`n` BLS key set
(`threshold_crypto`) is generated once, its shares are stored encrypted with
AES-256-GCM under a master key taken from `DSIGN_MASTER_KEY`, and signing
nodes on the local network each sign a client's message with their share; the
client combines enough signature shares and checks the result.

## Layout

- `src/` — the library, verified with Verus.
  - `model/` — the generic key and signature model and its traits.
  - `logic/` — the key service (key generation, signing, verification) and
    the factory traits.
  - `platform/` — the model over `threshold_crypto`, SHA-256 digests,
    base64, AES-256-GCM, the encrypted repositories, the signing protocol
    between nodes and clients, and the service factories. Calls into outside
    crates sit behind small trusted wrappers in `threshold.rs`, `aead.rs`,
    `encoding.rs`, `digest_generator.rs`, `hex.rs` and `network.rs`.
  - `standalone.rs` — the unencrypted sample node and client
    (`pubset.key`, `share-<i>.key`).
  - `ui.rs` — the commands the application runs.
- `app/` — the executable: command line, environment, files, and the libp2p
  event loops that hand each request, response and clock reading to the
  library.
- `tests/` — tests of the library.

The library never reads the environment or the disk itself: functions take
the master key variable's value and the files' contents, and return the bytes
to be written.
