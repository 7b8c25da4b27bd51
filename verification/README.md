# stack_vm

A virtual machine that runs bytecode of a dynamic language on explicit frames,
written in Verus. Frames, operands, pending operations and activation records
live in plain stores; the native stack holds none of them. Calls, conversions,
property accesses, constructions and environment accesses that need other code
to run are suspended as values and resumed by a reply.

## Layout

- `slots`, `frame`, `frames`, `execution`: the stores of a running execution.
- `heap`, `runtime`, `text`, `value`, `object`, `array`, `promise`: values and
  what they refer to.
- `code`, `run`: published bytecode and the resident instruction loop.
- `call`, `driver`, `frame_operations`, `frame_exit`, `unwind`: calls, frame
  entry and exit, and the loop that drives an execution.
- `conversion_driver`, `property_driver`, `property_write_driver`,
  `environment_driver`, `environment_bindings`, `with_driver`,
  `construct_driver`, `class`, `apply_driver`, `array_driver`, `eval_driver`: one
  driver for each kind of operation.
- `backtrace`: the activations that an error was made under.
- `async_function`, `async_from_sync_iterator`: operations that wait for
  promises.
- `storage`, `balance`: what holds of every run as a whole.

## Contracts

Each store and driver has a mathematical view (`Slots`, `Frames`, `Machine`,
`Heap`), and the contract of an executable function equates its result and the
views after it with a function of the views before it. What holds across
functions is stated by public proof functions beside the definitions that they
speak of.

Native bodies and host hooks are left to the embedder: an execution that needs
one stops with a pending call and goes on with the embedder's answer.

Iterator regions are not driven here. A throw that meets one stops the
execution with a root handoff that keeps the throw: the embedder closes the
iterator, takes the region away and resumes the execution, and the throw goes on
to the next region.
