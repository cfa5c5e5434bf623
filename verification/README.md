# vitality

The decision logic of a gameplay ability and attribute system for the Bevy engine, written in
Verus and proved against its contracts.

Entities are identified by their bit patterns (`Entity::to_bits`), ability definitions by
handle ids, and durations by nanoseconds, so the library works on plain values.

## Layout

- `src/ability.rs` — targets, ability events, recovery timer, errors and their messages.
- `src/ability_state.rs` — the ability state machine: transitions, the ready state's activation
  decision, and what entering or leaving a state does.
- `src/task_states.rs` — the task state machine: transitions and state-entry actions.
- `src/tasks.rs` — task completion rules, the owner walk from a task to its ability, task scopes.
- `src/systems.rs` — activation checks and the entities an activation reads and writes.
- `src/abilities.rs` — queries over actors and their granted abilities.
- `src/attributes.rs` — attribute values, recalculation, assignment steps and ability costs.
- `src/context.rs` — expression contexts and how roles resolve to participants; global effects.
- `src/conditions.rs` — range, component and ability conditions.
- `src/modifier.rs` — subjects, immediate modifiers, dependency registration.
- `src/decimal.rs` — decimal text of integers.
- `app/` — the engine side: components, events, state-machine hooks, observers and systems that
  gather world data, call the library and carry out its decisions.
- `tests/` — tests of the library on concrete values.
