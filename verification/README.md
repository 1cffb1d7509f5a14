# openvx

Building OpenVX graphs, verified with Verus.

The library (`src/`) never calls OpenVX. Every operation says, as plain
values, which OpenVX calls it needs and what their replies mean:

- `consts` — the numeric values of the OpenVX enumerations used.
- `error`, `call` — status codes, calls (`Call`), replies (`Reply`) and
  what a failure means for the operation that made the call (`OnFailure`).
- `objects` — contexts, kernels, images, scalars and arrays: the single calls
  that create, query and release them, and the status checks of the replies.
- `graph` — a graph under construction as a state machine: operations append
  steps, a driver performs `next_action` and hands the reply to `complete`.
  Steps keep their numbers: a failure whose error is returned drops the
  failed step and every step still pending, and no later step may name an
  object of a dropped one. The proof functions there state what driving does
  when every call is accepted, when one is refused, and how graph parameters
  are numbered.
- `inputs`, `ops`, `graph_ops` — what each graph operation (Gaussian, Sobel,
  magnitude, channel extraction, median, Harris corners, outputs, verify, run)
  plans, exactly; `edge_graph_prelude` makes the kernel lookups and the graph
  creation that come before the edge graph is planned.
- `shape` — what a plan builds, up to the names of its objects; the edge
  graph of `edge_graph_factory` is shown to be the edge-detection pipeline's.
- `patch` — packing a mapped image patch into a row-major buffer, and the
  addressing of an image created over a matrix buffer.

`app/` is the program around it: the OpenVX C functions, the loop that
performs the planned calls, and the conversions to and from OpenCV matrices.
