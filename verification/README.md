# horfimbor_mono

The game logic of the horfimbor "mono" services, with machine-checked
proofs of its contracts: the
event-sourced states of a planet, an account, a counter and a ping game,
the events they replay, the commands they decide on, and the decisions of
the services that listen to each other.

- `src/` — the verified library. Every state has a view (`@`) and a spec
  function per operation (`played`, `decided`, `decision`, ...) that its
  executable functions are proved against; the laws (`law_*`) relate
  several operations.
- `tests/` — tests of the library on concrete values.
- `app/` — what runs around it: settings read from the environment, the
  serde forms of the data, the conversions to `chrono`, `uuid` and
  `horfimbor_time` types, and the floating-point parts (a counter's
  average, the planet's picture).

Calls into `uuid`, `chrono`, `horfimbor_eventsource` and std's string
formatting stand behind small trusted wrappers, each with a doc comment
saying what its contract assumes of the outside code.
