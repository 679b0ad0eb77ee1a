# handy

The verified core of a push-to-talk transcription desktop app.

- `src/` is the library, verified with Verus:
  - `settings.rs`, `bindings.rs`: the settings, their defaults, the locking
    rules applied on every load and write, the configuration fingerprint and
    the decision taken on a stored configuration.
  - `mistral.rs`: preparing the hosted transcription request and the retry
    schedule of the HTTP exchange.
  - `transcription.rs`, `models.rs`: the model catalog, switching and loading
    the active model, the 16-bit PCM WAV layout of recorded samples.
  - `recording.rs`: the microphone session state machine, device choice and
    the padding of short recordings.
  - `logging.rs`, `startup.rs`: log level rules, the console filter's source,
    and start-up decisions.
  - `text.rs`: Unicode whitespace, trimming, case-insensitive matching, hex
    and decimal text.
- `app/` is ordinary Rust around it: the settings file (serde), the HTTP
  client loop (reqwest), sample conversion, the microphone back end, model
  commands, the desktop shell, typing text (enigo), log filters.
- `tests/` exercises the library.
