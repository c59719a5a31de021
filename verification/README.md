# protobench

A benchmark that runs one workload over HTTP/3, HTTP/2 and gRPC and compares
what comes of it. The workload has six tests: a small payload, a large payload,
a stream from the server, a stream from the client, a stream both ways, and
many small requests.

`src/` is the library, verified with Verus. It decides what is sent, how a reply
is counted, which handler a path reaches, what each handler answers, and how
the results are worded. Clients and servers are state machines there: each says
what to do next and is told what came of it.

- `payload`, `params`, `route`, `endpoint`, `plan`: the workload and where it goes
- `buffer`, `message`: byte buffers and message heads of the `bytes` and `http` crates
- `feed`, `tally`: sending and counting chunks
- `http3_client`, `http3_server`, `http2_client`, `http2_server`, `grpc_client`,
  `grpc_server`: the two sides of each transport
- `round_trip`: what a client finds out when it talks to its server
- `report`, `text`, `decimal`: the wording of the results
- `tls`: what the clients ask of a certificate

`app/` holds the programs: sockets, TLS, clocks and progress bars. Run one of
`h3-server`, `h3-client`, `grpc-server`, `grpc-client`, `http2-server` and
`http2-client`.

`tests/` runs the state machines against each other, in memory.
