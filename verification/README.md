# uml-fsm

A small, type-driven finite state machine library, verified with Verus.

- `src/fsm/` — the FSM core: the `State`, `Event`, `Guard`, `Action` and
  `HandleEvent` traits, guarded `Transition`s, and the runtime boundaries
  (`ActionSink`, `EventSink`, `EventSource`, `DispatchEvent`, `ActionRunner`)
  with bounded event queues and action sinks: `FixedEventQueue` and
  `FixedActionSink` over caller-provided slots, and `HeaplessEventQueue` and
  `HeaplessActionSink` over a `heapless::Deque` (`deque.rs` states what the
  library relies on of that deque). `fifo.rs` holds the model all queues and
  sinks are specified against, and the laws proved of it, including laws
  over any history of pushes, pops and drains.
- `src/state.rs` — a simpler transition between two states of one type with
  fallible hooks and action.
- `src/domain/` — the snubber node domain type.
- `app/` — a small program that creates a snubber node and prints it.
