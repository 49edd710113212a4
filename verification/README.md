# grpcknock

A small gRPC health check probe for the command line. It calls the standard
`grpc.health.v1.Health/Check` method and reports the result through the process
exit code.

| Code | Meaning                                   |
|------|-------------------------------------------|
| 0    | SERVING                                   |
| 1    | connection failure (including TLS errors) |
| 2    | invocation error (the RPC itself failed)  |
| 3    | NOT_SERVING, UNKNOWN or SERVICE_UNKNOWN   |
| 4    | timeout (connection or request)           |

The logic of the probe is a library that is verified with Verus; the program
around it reads the command line, dials and prints.

## Layout

- `src/endpoint.rs`: the target to dial, from `--addr` and `--port`
- `src/cli.rs`: the flags, their rules, and durations
- `src/tls.rs`: what the TLS flags ask of the channel
- `src/metadata.rs`: metadata headers from `--metadata`
- `src/status.rs`: serving statuses, exit codes and which of them is worst
- `src/probe.rs`: what to dial and ask, failures, and the retry policy
- `src/output.rs`, `src/json.rs`: rendering of results
- `src/run.rs`: the course of a check and of a watch
- `src/span.rs`, `src/text.rs`: spans of time, and text helpers
- `app/`: the program: clap, TLS files, the channel, signals and output
- `tests/`: tests of the library

Functions named `law_..` state what holds of the library as a whole.

What the library takes on trust from tonic, tonic-health, serde_json and the
standard library stands in functions marked `external_body`, in
`assume_specification` items and in the names declared `uninterp`; each says
which outside function it speaks of.
