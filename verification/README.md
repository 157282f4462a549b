# dioxus_shell

The decisions behind the windows of a desktop or mobile application, verified with Verus.

- `src/` is the library. Its state machines take what happened as plain values and answer with
  what is to be done, in order.
  - `app`, `effect`: the application, its windows, and what handlers ask for.
  - `reload`, `reload_laws`: pages that are lost and loaded again, and what holds of them
    whatever happens.
  - `hot_reload`, `toast`: what the development server reports, and what pages say about it.
  - `browser`: links that are opened in the browser.
  - `head_record`, `opened_urls`: what is kept for the next page, or for whoever asks.
  - `window_state`: where a window was, and how it comes back.
  - `mobile`, `session_env`: starting from outside, and the variables a launcher leaves.
  - `config`: the configuration of a natively drawn application.
- `app/` is the shell around it: threads, files, signals, and the windowing layer behind traits.
- `tests/` runs the library.
