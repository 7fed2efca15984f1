# voice_pipeline

The request logic of a voice dictation backend, verified with Verus.

`src/` is the verified library:

- `multimodal` — WAV framing of PCM audio (`build_wav`), the system prompt of the
  multimodal model (`prompt`), and the OpenAI-compatible provider (`openai`): request
  planning, retry decisions, and the readers of streamed (server-sent events) and plain
  replies.
- `stt` — the MiMo ASR session (buffering, transcription request, reply reading) and the
  no-op provider.
- `commands::stt` — which request checks a provider's credentials, and what the reply
  means for a connection test or a latency benchmark.
- `error` — the backend error, the user-facing error, and the retry policy.
- `text`, `bytes`, `encoding`, `json`, `http` — character and byte helpers, and the
  trusted wrappers around `std`, `base64`, `serde_json` and `reqwest`; `json` decides
  which reply fields are read.

`app/` is the asynchronous shell: the provider traits, HTTP calls, sleeps between
retries, and the serialisable copies of the library types.
