# mojave_transport

The verified core of a peer-to-peer transport: which addresses the WebTransport
transport dials and listens on, how a node routes a dial or a listen to a
transport, which connections it waits for, and the schedule by which it polls
what it owns.

- `src/`: the library. Contracts and laws are proved by Verus.
- `tests/`: tests that run the library together with the crates it uses.
- `app/`: the asynchronous shell: sockets, futures, wakers and logging.
