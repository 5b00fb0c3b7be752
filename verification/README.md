# tars_anthropic

The Anthropic backend of the TARS runtime, verified with Verus, and the command line of `tars`.

| module | what it holds |
| --- | --- |
| `text`, `json` | strings and JSON values with their mathematical models |
| `decode`, `http` | what is used of `serde_json`, `reqwest` and `url`, with its contracts |
| `chat`, `error` | the vendor-neutral requests, events, answers and errors |
| `request`, `request_laws` | translating a request into the backend's body; cache markers |
| `sse`, `stream`, `tool_buffer`, `stream_laws` | reading a streamed answer |
| `adapter` | addresses, headers, and what a failed answer means |
| `batch`, `submit`, `batch_laws` | the batch interface |
| `provider` | setting a provider up |
| `cli` | the command line |

Every function states its result in `ensures`. What relates several of them stands in public proof
functions whose names begin with `law_`. What is believed without proof about other crates and the
standard library stands at the top of `text`, `decode` and `http`.

`app/` is the program around the library: it sends what the library prepares and hands back what
comes in.
