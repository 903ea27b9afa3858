# runc

A client for the [runc](https://github.com/opencontainers/runc) binary whose logic is verified with
Verus.

`src/` is the library. A `Config` is filled by chained calls and builds a `Client` or an
`AsyncClient`. Each operation of a client (`create`, `exec`, `kill`, ...) gives the first `Step` of a
call. A step says what is due: a file to choose or write, a path to make absolute, streams to
attach, a command to launch. `Step::advance` takes the report on it and gives the next step, and the
last step holds the answer. `reply` reads lists, states and statistics out of answers. The library
touches nothing outside of itself.

| module | what it holds |
| --- | --- |
| `config` | configuration, settings, the words that stand before every operation |
| `options`, `operation` | the words of each operation |
| `command` | plans and command lines |
| `step` | the course of a call |
| `exit`, `error` | how a process ended, what can go wrong |
| `client`, `async_client` | the operations |
| `reply`, `json`, `text` | what answers mean |
| `laws` | what holds of calls as a whole |

`app/` puts the system around the library: it searches the binary, writes the files, and runs the
processes, on the calling thread or on a tokio runtime.
