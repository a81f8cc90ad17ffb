# scroll_widget

The decision logic of a scrolling container, verified with Verus.

- `src/direction.rs`: scroll directions and the largest size the container
  gives its child along each axis.
- `src/bars.rs`: the scroll bars' interaction state (hover, drag, fade timer)
  as a state machine from an event to the next state and the actions to carry
  out, with the laws it obeys.
- `app/lib.rs`: the container itself, in ordinary Rust: floating-point
  geometry (offset clamping, bar bounds, hit tests, fading opacity), painting,
  and the loop that performs the state machine's actions.
