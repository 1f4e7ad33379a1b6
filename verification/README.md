# savefile

A binary serialization library whose encoders, decoders and version rules
are verified with Verus, together with the machinery for calling interfaces
across a library or network boundary with arguments passed as bytes.

Layout:

- `src/traits.rs`, `src/prim.rs`, `src/containers.rs`, `src/le.rs`,
  `src/serializer.rs`: the encoding of each value, stated over a model, with
  a proof that reading back what was written gives the value.
- `src/save.rs`: files with a header and a schema; loading checks the stored
  schema against the reader's.
- `src/schema.rs`, `src/schema/`: schemas and when two are compatible.
- `src/versioning.rs`, `src/packed.rs`: removed fields and memory layouts.
- `src/attrs.rs`, `src/attrs/`: how field and enum attributes are read.
- `src/introspect.rs`: looking into values by key.
- `src/codegen.rs`, `src/codegen/`: what the derive and interface macros
  decide, on plain models of the declarations they read: which fields are
  written and how each is read back in a version, the schema of a record or
  enum, the fields shown when looking into a value, when a type may be copied
  as raw bytes, how each argument of an interface method travels, and which
  trait declarations are refused.
- `src/abi.rs`, `src/abi/`: interface definitions, matching a caller's
  methods with an implementation's, calls, and the messages of a remote server.
- `src/samples/`, `src/interfaces/`: data types and interfaces with their
  encodings written out.
- `app/`: files and TCP connections around the library.
