# selfapi_agent

The logic of the SelfAPI desktop agent, verified with Verus: API keys and
their code snippets, the curated model catalog and its hardware-aware
recommendations, download bookkeeping, the installed-model manifest, the
local OpenAI-compatible gateway's request handling (origin and key checks,
routing, replies), and the small state machines behind the fallback router,
tunnel client, marketplace host and model hot-swap.

- `src/` — the verified library. Amounts that the desktop UI shows as
  floating-point numbers are integers here: memory in tenths of a GiB or
  hundredths of a byte, money in cents, percentages in hundredths of a
  percent.
- `tests/` — tests of the library.
- `app/` — the desktop agent around it: hardware detection, files on disk,
  downloads, the TCP listener and the JSON shapes of the UI.
