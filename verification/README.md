# iec104_simulator_backend

The logic of an IEC 60870-5-104 master/slave simulator backend, verified with
Verus: command validation and ASDU encoding, decoding of the commands a slave
receives, link supervision (t0-t3, the w window, retransmission and recovery),
pending command tracking, send checks and control point status, the point
admission and point store of a master, measurement time tags and events, file
transfer sessions with the frames of uploads and downloads and the step
functions that decide each flow's next frame, wait and check, the steps of a
slave station's configuration update, point table import (preview, append
merge, apply, and storing with its roll-back), message logs, station policies,
the interface language setting, exported files in base64 and the error codes
the interface shows.

Layout:

- `src/` — the verified library, one module per concern; every public
  function states its result in `ensures`, and the laws that relate several
  functions are public proof functions beside them.
- `tests/` — tests on concrete values, run against the compiled library.
- `app/` — the unverified plumbing: serializable copies of library types,
  reads of the clock, the file system and socket addresses, and the tasks that
  perform what the link supervisor, the transfer flows, command dispatch,
  the station update and the point table store decide.

Calls into `chrono`, `uuid`, `base64` and `serde_json` stand behind small
trusted wrappers whose contracts say what those crates document.
