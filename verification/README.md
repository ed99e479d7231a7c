# canvas_worker

The event loop of an application that runs on a dedicated web worker and draws to a canvas owned by
the page. The page retains the DOM listeners and the window operations; the worker owns the events
of the application, the scheduling of its frames, and the offscreen canvas. One page canvas goes to
one dedicated worker.

`src/` is the loop itself, verified with Verus. Of the outside world it reads a clock and wakes the
task of the worker. The rest is left to its caller: each operation returns what is to be done next.

- `event`, `time`: what the loop speaks of, and the delay of its timer.
- `shared`, with `queue` and `waker`: what the page and the worker share.
- `host`: canvases that are ready for a worker, and what the page passes on.
- `worker`: the canvas that a worker is attached to.
- `runner`: the cycles of the loop.
- `callback`: how callbacks of the browser are asked for and dropped.
- `world`, `laws`, `quiet`, `attaching`: what holds of every run of the loop, of a cycle that nobody
  interferes with, and of hosts and workers.

`app/` runs the loop in a browser. `tests/` runs it on given inputs.
