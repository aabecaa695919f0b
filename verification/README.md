# clientserver

Echo clients and servers over TCP (threads or tokio tasks), over TLS
(rustls), and a one-method gRPC key lookup (tonic).

- `src/` is the verified library (Verus). It holds the decisions of the
  sessions, the accept loops and credential loading:
  - `client`: the client session (five rounds of `helloN`, flush, read reply),
  - `echo`: the server session (read, write the same bytes back, flush),
  - `listener`: numbering accepted connections (and the overflow of the
    numbering) and handling accept failures,
  - `pem`: loading the credentials file by file and choosing the
    certificate and private key out of PEM files (decoding is done by
    `rustls-pemfile`),
  - `grpc`: the lookup service's server logic and the client's request,
  - `digits`, `event`: decimal rendering and the shared I/O outcome types.
  Sessions are state machines: they name the next I/O operation and the lines
  to print, and are handed back the operation's outcome.
- `app/` is the programs: sockets, TLS streams and their rustls/tonic
  configuration, the gRPC transport, files and console output. Run
  `app <program>` with one of `tcp-client`, `tcp-server`, `tcp-client-async`, `tcp-server-async`, `tls-client`, `tls-server`,
  `grpc-client`, `grpc-server`.
- `tests/` runs the library on concrete values.
