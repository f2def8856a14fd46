# lktunnel

The rules of a VPN that tunnels through calls: when the control channel is up,
which tunnel belongs to which call, who may call in, and what the daemon does
next. All of it is a verified library without I/O. It takes plain values and
gives plain values back: what happened goes in, what to do about it comes out.

- `src/` is the library. `activation` is the switch on the control channel,
  `client_manager` and `server_manager` keep the calls, `admission` is the
  server's policy, `mode_loop`, `client_run` and `server_run` are the daemon's
  loops as state machines, `bridge` is what crosses to the JVM.
- `app/` performs what the library decides: tasks, locks, sockets, devices, and
  the entry points for the JVM.
- `tests/` runs the library on concrete values.

Functions whose names begin with `law_` state what holds of whole runs, whatever
comes in: what an application hears of a call is always one session's life, the
switch never says the same thing twice in a row, no slot for a device is lost.
