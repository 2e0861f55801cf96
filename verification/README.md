# mutter

The core of a compositor toolkit, verified with Verus: the actor tree and
its generational handles, input grabs and focus, the frame clock's
scheduling state machine, pick stacks and passes, the pipeline cache,
damage history, the backend's stage registry, grid placement, the box
layout's spreading of spare space, paint trees, events and the actions
and focus policies that receive them, the color-state cache, key symbols,
udev device classification, and the plain data types the scene graph
exchanges.

- `src/` is the verified library. Each module states its behaviour as
  `requires`/`ensures` over spec models (sequences, maps and view
  structs), and the laws that relate several operations are public proof
  functions named `law_*`.
- `tests/` exercises the library on concrete values.
- `app/` holds what the verifier cannot take: the floating-point geometry
  and layout (boxes, box, bin, fixed and flow layout, constraints, paint
  volumes, picking by point), event positions, easing curves, color
  transfer curves, refresh rates and scales, and the process-wide
  accessibility switch. It calls the library for every decision that does
  not need floats; where a library type carries continuous quantities
  (events, paint nodes, pick passes, color states), it holds them as a
  type parameter that the host fills in.

The `heapless` crate provides the fixed-capacity vector of the progress
registry; its few calls stand behind small trusted wrappers in
`src/interval_progress.rs`.
