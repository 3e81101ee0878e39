# tokscale_codex

Accounting of Codex CLI sessions, verified with Verus: which tokens a session used, whether it is
still running, and how the live monitor shows it.

- `src/` is the library. Verus proves that its functions do what their contracts say.
  - `tokens`, `counting`: token counters, and how a report counts against the totals before it.
  - `entry`, `headless`, `json`, `timestamps`, `text`, `repository`: what the lines of a session
    file say.
  - `file`: a session file, read into messages.
  - `current`, `activity`: a session that may still be running.
  - `now`: the live monitor, as areas, styled text and numbers.
  - `laws`: what holds of counting and of session files as a whole. Laws about one module stand in
    that module.
- `app/` reads session files and the machine's time zone, reads and writes JSON, and draws the
  monitor.
- `tests/` runs the library.

Calls into `simd_json`, `serde_json`, `chrono`, `ratatui` and the parts of the standard library
that Verus does not know go through small functions whose contracts are trusted. Each of them says
which function it calls and what it claims of it.
