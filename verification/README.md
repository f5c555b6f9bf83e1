# vyond_monitor

The bookkeeping and decision logic of the Vyond security monitor, a
trusted execution environment for RISC-V harts protected by WorldGuard
checkers, verified with Verus.

* `src/` is the verified library:
  * `enclave` — the enclave table, the run-state machine (create, enter,
    resume, stop, exit, destroy) and the context switches between the host
    and an enclave;
  * `isolator` — the WorldGuard regions of the monitor, the host and the
    enclaves, and the per-world permission masks;
  * `wg` — WorldGuard checker registers as the monitor lays them out;
  * `wg_sm` — the checkers as the stand-alone boot firmware lays them out
    (slots 0x28 bytes apart), and the boot configuration it gives them;
  * `cpu`, `thread`, `trap` — per-hart state, saved contexts, trap frames;
  * `once_cell`, `spinlock`, `error`, `api`, `encoding` — supporting types,
    error codes and SBI status codes;
  * `platform` — the `Platform` trait through which the library reaches
    the hardware, and `Machine`, which keeps the ghost trace of every
    request made to it and every answer.  The trait's methods carry no
    contract: everything proved holds whatever the hardware does.  Where
    a contract speaks of the hardware, it states the requests that the
    function appends to the trace.
* `app/` is the firmware around it: the SBI entry points, CSR and
  memory-mapped register access, spin waiting, and the console.
* `tests/` runs the library against recording platforms.
