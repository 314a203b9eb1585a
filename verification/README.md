# kite_mesh

The verified core of the Kite Mesh agent network, and the `kited` daemon
around it.

- `src/` — the library, verified with Verus: the protobuf wire encoding and
  canonical signing bytes of every message (`wire`, `proto`), identities and
  signatures (`identity`), canonical facet fingerprints (`facets`), the exact
  facet filter (`rerank`), capability cards, ACL envelopes and receipts
  (`capability`, `acl`, `receipt`), directory keys and records (`directory`),
  LSH parameters and signature packing (`lsh`), length-prefixed framing
  (`codec`), configuration defaults (`config`), and the daemon's
  conversation state machine (`event_loop`, over the keyed tables of
  `table`).
- `app/` — the daemon: libp2p transport and codecs, protobuf decoding,
  SQLite receipt storage, the embedding encoder, floating-point LSH planes
  and cosine ranking, and the async loop that feeds network events to the
  state machine and performs the actions it returns.
- `tests/` — tests of the library.
