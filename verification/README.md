# baton

The participants of an agent-to-agent conversation: each takes a request envelope and
gives a response envelope, and a failure is delivered as an error envelope.

The library in `src/` makes the decisions and is verified with Verus. It does no input or
output: it says what to do next, takes what came of it, and says what the reply is.

| Module | What it holds |
| --- | --- |
| `participant` | the `Participant` trait, and how an answer or a failure is delivered |
| `message`, `record` | envelopes, fresh identifiers, correlated replies, the record of a provider call |
| `local` | the participant that calls a provider |
| `subprocess` | the participant behind a child process that speaks envelopes |
| `mailbox` | the participant behind a peer's mailbox: deliver, look, sleep, answer |
| `external`, `output` | the participant behind an agent's command line, batches, and how a result is isolated |
| `child`, `capture`, `bytes` | one run of a child process, the bounded buffers of its output, bytes as text |
| `windows` | command lines that survive `cmd` and the C runtime |
| `text`, `span`, `error` | whitespace, lines and numbers; lengths of time; failures |
| `testing` | participants that need no host, for tests of what drives a conversation |
| `outside` | what is taken from `std` and `serde_json`, with the contracts that are believed |
| `*_laws` | what holds across functions: replies have distinct identifiers, a child is waited for, a result survives truncation, every argument list survives both readers |

`app/` is the host: processes, threads, clocks, files and JSON around the library.
`tests/` drives the library against stand-ins for a host.
