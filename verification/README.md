# timesman

TimesMan keeps "times": titled logs under which short posts, tags and
todos are recorded. This crate is its library, verified with Verus.

Layout of `src/`:

- `types`, `time`, `text`: the data model, points in time as chrono keeps
  them, and exact string helpers (decimal numbers, keys, parsing).
- `bstore`: the stores. `ram` keeps everything in memory; `local` decides
  the keys, identifiers and records of the key/value database store;
  `remote` builds the requests of the stores on a gRPC server.
- `grpc`: the wire messages and their conversions.
- `server`: configuration, authentication, and the request handling of the
  gRPC front over the memory store; the answers of the HTTP front.
- `store`: the first generation of stores (JSON file, HTTP server).
- `client`: the decision logic of the desktop client screens; `client::jobs`
  does the store work that a times screen asks for on a memory store, and
  `client::preview` lays out the preview of a text file.

`app/` holds the program around the library: configuration and JSON files,
the UnQLite database driver of the local store, and the writing of the
dumps that the store work of a times screen produces.
