# coldvox-text-injection

The text injection layer of the ColdVox dictation pipeline: it buffers the
final transcriptions of a dictation session, decides when to inject them,
and chooses, orders, paces and retries the backends (AT-SPI, clipboard
paste, enigo, kdotool, ydotool, a no-op fallback) that put the text into the
focused application.

## Layout

- `src/` — the library, verified with Verus. Every decision is a function
  with a contract: backend detection and planning, the strategy manager's
  injection protocol (focus gate, allow and block lists, method order,
  cooldowns with exponential backoff, latency budget), the fast-fail
  orchestrator, the dictation session state machine, confirmation by
  grapheme prefix, configuration migration, metrics and log records.
  Clock readings and answers from the desktop are taken as arguments, so the
  decisions are verified for every value. Public proof functions state the
  laws that hold across calls (for example, that an attempted method always
  has an injector and is outside every cooldown).
- `app/` — the platform side, not verified: reading the environment,
  running external tools, the clipboard and keyboard adapters, the async
  drivers that run the library's protocols, serde documents for the
  configuration formats, and `tracing` output.
- `tests/` — tests of the library on concrete values.
