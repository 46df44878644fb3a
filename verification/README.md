# scalar

The verified core of a Scalar node, written in Verus.

- `src/` is the library. Every function in it carries a contract that
  Verus proves: the paranoid type checker of the Move interpreter, the
  primary's vote admission, parent checks, equivocation protection, the
  course of a vote request as a step function, and certificate fetching, the collection of signatures on external events,
  the TSS party's sessions with its daemon and signature check, and the smaller value
  types of the relayer, the ABCI service and block ingestion. Calls into
  `uuid`, `envconfig` and `k256` go through a few trusted wrappers whose
  contracts are documented next to them.
- `tests/` runs the library on concrete inputs.
- `app/` is the relayer program: command line, configuration files, and
  printing, around the library.
