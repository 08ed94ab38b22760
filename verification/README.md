# moxie_dom

Declarative construction of HTML DOM trees, with an in-memory DOM that renders
HTML strings and answers user-oriented queries, verified with Verus.

## Layout

- `src/rsdom.rs`: the in-memory DOM. A `VirtDocument` owns every node; nodes
  are named by `NodeId`. Its view is a sequence of nodes (parent, children,
  tag and attributes or text) with a ghost rank that orders every child below
  its parent, so the parent links form a forest. Every mutation keeps the
  well-formedness predicate `wf`, and its contract says exactly which nodes
  change and how.
- `src/xml.rs`: the calls into `quick_xml`'s event writer, and the bytes each
  event writes.
- `src/html.rs`: `outer_html`, `pretty_outer_html` and the text content of a
  subtree, each stated over a recursive rendering of the tree.
- `src/normalize.rs`: whitespace normalization (trim, collapse runs).
- `src/testing.rs`: queries by label text, text, attributes and test id over a
  subtree in depth-first pre-order, and the single step of a query that waits
  for the DOM to change.
- `src/cached_node.rs`: reconciling the children of a node against the
  children declared by one revision; `boot` in `src/lib.rs` renders one
  revision of a root.
- `src/interfaces/`, `src/elements/`: the element builder traits, and the
  element types with their attribute methods.
- `src/prettiest.rs`: pretty printing of JavaScript values, read into a
  graph with one node per object, in the forms of Rust's `Debug`, with
  `[Cycle]` for an object already being printed.
- `app/`: what runs in the browser or in the moxie runtime: formatting, the
  animation-frame loop, snapshots of the browser's DOM, waiting queries,
  memoized attributes, and reading JavaScript values into the graph that the
  library pretty-prints.
- `tests/`: tests of the library on concrete documents.
