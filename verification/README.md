# pd_verified_monitor

Decides how a Qualcomm phone negotiates with a charger in automatic mode:
Xiaomi's own protocol first, public PPS where that does not come about, with a
bounded number of attempts and with charger swaps behind an adapter noticed.

`src/` is a library verified with Verus. `monitor` is the machine that the
monitor thread runs: it asks for one thing at a time (read a node, write the
verification, wait, ...) and turns each answer into the next request. `tracker`
holds what is known of the attachment and how each observation changes it;
`rules`, `phase`, `session`, `uevent` and `wait` are the parts it is made of.
`laws` proves what holds of the monitor as a whole, and of every course of events
that it may see: the budget of attempts, the time that Xiaomi's protocol has, what
a write of the port rests on, where public PPS is taken, the debouncing of
detachments and swaps, the absence of polling while a session is stable, and what
the broadcast worker is told.

Time is a number of nanoseconds since a moment of the caller's choice. The clock
is read once for every answer, after the answer came.

`app/` is the thread around the library. The rest of the daemon supplies the
traits in `app/daemon.rs`.
