# rutsubo

A coding agent that runs on your own machine: a daemon that keeps sessions,
lets a language model work in a workspace through a few tools, asks a person
before anything is written or run, and shows every step to the clients that
follow along, directly or through a relay.

The library under `src/` holds the rules of the daemon. Every one of its
functions is verified, but for the calls that `outside` makes into other crates
and into std, whose contracts are taken on trust. The program under `app/` performs what the library says:
it talks to the database, the file system, the providers and the network.

## Layout

| Module                         | What it holds                                                    |
|--------------------------------|------------------------------------------------------------------|
| `protocol`                     | ids, times, events, commands, envelopes, safe paths, diffs       |
| `agent`                        | context, turns, approvals of tool calls, one turn per session    |
| `llm`                          | providers, and the adapter that falls back from one to the other |
| `tools`                        | the tools: read, search, write, edit, run                        |
| `store`                        | what a row, an append, a decision and an acknowledgement do      |
| `api`                          | the rules of every endpoint                                      |
| `ws`, `tickets`, `auth`        | who may connect, and what a connection is sent                   |
| `relay`                        | pairing, reconnection, commands and tasks that come by the relay |
| `config`, `state`, `asr`       | settings, what is built from them, transcription                 |
| `outside`                      | every call into a crate or a part of std that is taken on trust  |
| `text`, `json`                 | strings and JSON texts                                           |

Contracts are stated over sequences of characters and plain values. The public
proof functions named `law_..` state what holds across functions: no effect
without an approval, one turn per session, numbers without gaps, a replay that
meets the live flow, a breaker that opens and recovers.

Loops that wait for the outside (a turn, a generation, a connection, the relay)
are machines: a step takes what happened and gives what to do next. `app/`
drives them.
