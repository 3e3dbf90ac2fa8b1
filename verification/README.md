# EPP decode sidecar

The pod-local HTTP data plane for disaggregated routing. A request without
`x-prefiller-host-port` goes to the local decode engine; a request with exactly
one valid value goes through the configured P/D adapter.

`src/` holds the rules of the sidecar as a verified library, `app/` the program
around it (environment, HTTP, signals), and `tests/` the library's tests.

| Module | What it decides |
|---|---|
| `trtllm_context_first` | request ids, the context handoff, both legs, their signature and their order |
| `sglang_pd` | the trusted bootstrap tuple and both legs of an SGLang request |
| `context_first_transport` | where a leg goes, its headers, and which failure a bad end counts as |
| `context_first_adapter` | how a client body is read and what a client is answered |
| `config`, `startup`, `routing` | the settings, the adapter they ask for, and the way of a request |
| `json`, `text`, `buffer`, `address`, `clock`, `error` | what the modules above share |

## Settings

| Variable | Default | Meaning |
|---|---|---|
| `DYN_SIDECAR_PORT` | 8000 | Port to listen on |
| `DYN_DECODE_ENGINE_PORT` | 8001 | Port of the local decode engine, which also runs the generation leg |
| `DYN_SIDECAR_CONNECT_TIMEOUT_MS` | 10000 | Time to connect to a worker |
| `DYN_SIDECAR_READ_TIMEOUT_MS` | 300000 | Time between two reads of a response |
| `DYN_SIDECAR_DRAIN_TIMEOUT_MS` | 30000 | Time that active requests are given at shutdown |
| `DYN_ADAPTER_MODE` | `none` | `none` or `trtllm-context-first` |
| `DYN_CONTEXT_ENGINE_URL` | required by the adapter | Worker that runs the context leg |
| `DYN_CONTEXT_FIRST_REQUEST_BYTES` | 1048576 | Longest client body |
| `DYN_CONTEXT_FIRST_HANDOFF_BYTES` | 8388608 | Longest context response |
| `DYN_CONTEXT_FIRST_RESPONSE_BYTES` | 16777216 | Longest response of any leg |
| `DYN_CONTEXT_FIRST_CONTEXT_DEADLINE_MS` | 60000 | Time for the whole context leg |
| `DYN_CONTEXT_FIRST_GENERATION_DEADLINE_MS` | 300000 | Time for the whole generation leg |
| `DYN_CONTEXT_FIRST_NODE_ID` | 0 | Node of the request ids, below 256 |
| `DYN_CONTEXT_FIRST_PROCESS_ID` | 0 | Process of the request ids, below 64 |
