# Erudify

A web application for practising Chinese listening: the learner hears a
sentence and types it segment by segment. Users sign in with GitHub.

- `src/` is the verified library: exercises, what each page shows, the study
  session, the text transformations, the GitHub sign-in steps, and the logic of
  the end-to-end checks. Every function there carries a contract. Verus proves
  the contracts of the library's own functions; the few small functions that
  call into std, `oauth2` and `leptos_router` are marked
  `#[verifier::external_body]`, and their contracts are trusted, taken from
  those crates' sources and documentation.
- `app/` is the Leptos application around it: the pages, the server functions
  that call GitHub, and `erudify e2e`, which checks a running site through
  WebDriver. Its `main` mounts the client side; the server that hosts the
  server functions is not part of it.
- `tests/` runs the library on concrete values.
