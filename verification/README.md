# corvid_bundle

The verified core of the Corvid bundle tools. A bundle is a directory that
holds a built library, its ABI descriptor, generated bindings, recorded traces
and a signed receipt, together with a manifest, `corvid-bundle.toml`, that
names them and their digests.

- `src/` is the library. It decides what is checked of a bundle, what a rebuild
  compares, how a trace is replayed, what is reported, and how an agent's
  C-callable wrapper is put together. Every function there has a contract that
  Verus proves, except the few listed below that it takes on trust. Files named
  `*_laws.rs`, and functions named `law_*`, hold what is proved about several
  functions at once.
- `app/` is the commands around it: reading files and manifests, running
  builds, loading libraries, emitting machine code, printing.
- `tests/` runs the library on concrete values.

What the library takes on trust is marked `external_body` or
`assume_specification`: SHA-256, base64, ed25519, hexadecimal keys, JSON
strings, path joining, UTF-8 decoding, the diagnostic form of a list of strings,
and the appending of a character to a string.
