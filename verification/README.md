# droidbridge

The contract and the daemon of DroidBridge, with every decision that they make verified by Verus.

- `src/contract` is the public contract: the calls, their results, the descriptors of both and the
  files that are generated from them.
- `src/daemon` is the daemon: its protocol, who hosts the runtime, commands under the root guard,
  the network, captures, screen and input, and maintenance.
- `src/json.rs`, `src/text.rs`, `src/bytes.rs` and `src/digest.rs` are what both are written with.
- `app` is the program around the library: sockets, processes, files and the kernel. It decides
  nothing; it reads, asks the library, and acts.
- `tests` run the library.

The daemon hosts a runtime that is not part of this crate. `app/runtime.rs` says what the daemon
needs of it; a build without one answers that nothing is available.
