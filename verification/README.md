# webview_recovery

Recovery policy for desktop windows whose WebView2 instance has died.

- `src/` is the verified library. It maps what a caller has observed of its
  windows to what the caller does next, and proves what holds of every such
  exchange: a probe always ends, rebuilds of one window never overlap whatever
  turns callers and threads take, every rebuild frees its flag once, and a
  rebuild of `main` that succeeds replays the request it was started with and
  then, once each, those that were handed over to it while it was in flight.
- `tests/` runs the library on concrete values.
- `app/` is the Tauri side: it looks at windows, performs the work that the
  library orders, and hands back what came of it.
