# cloudwatch-logging

A client that batches log lines and sends them to AWS CloudWatch Logs.

- `src/` is the verified core (Verus): the log levels and their console
  rendering (`levels`), the error type and its text (`error`), the choice and
  parsing of the AWS region (`region`), the batching state machine with its
  `PutLogEvents` and `DescribeLogStreams` requests and replies (`prelude`),
  the slot of the once-only shared setup and its laws (`sync`), and the laws of the
  batching rule (`laws`).
- `app/` is the asynchronous runtime around it: the `Logger` that sends
  messages over a tokio channel, the setup, the background loop that feeds the
  state machine its events and performs the CloudWatch calls, the panic hook,
  and the shared logger, whose turns on the verified slot are taken under a
  lock.
- `tests/` exercise the core on concrete values.
