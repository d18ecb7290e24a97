# grpc_server

The audio-handling core of a speech-recognition gRPC server, verified with Verus.

- `src/pcm.rs`: raw 16-bit PCM validation, big-endian to little-endian
  conversion and little-endian sample decoding, with their laws.
- `src/wav.rs`: WAV header inspection and sample extraction through `hound`.
- `src/request.rs`: decoding the audio of a recognition request by its type.
- `src/vad.rs`: checks made before voice-activity detection and conversion of
  detected segments into response intervals.
- `src/recognition.rs`: building the response from the recognizer's result.
- `src/service.rs`, `src/settings.rs`, `src/error.rs`: service types, plain
  settings and errors.
- `app/`: configuration loading, logging, error messages and the Vosk
  recognizer, around the library.
