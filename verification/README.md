# onlinerpg

The connection layer of a small online role-playing game, verified with Verus:
what a game server does with every message, timeout and broadcast of one
WebSocket client, from the protocol handshake over login and character choice to
the requests of a player in the world.

- `src/` is the library. Every decision is a function with a contract; work that
  needs the outside world is named as a value (`session::Action`,
  `channel::LoopStep`, `startup::ServerAction`), and one function per outcome says
  how to go on. `laws.rs` and the `law_*` functions of the other modules state what
  holds of a connection as a whole.
- `app/` is the server around it: sockets, the wire format, the command line, and
  the traits behind which accounts and the world stand.
- `tests/` runs the library on concrete values.

Coordinates are carried as the bit patterns of single-precision numbers
(`world::Scalar`) and compared as the numbers they stand for.
