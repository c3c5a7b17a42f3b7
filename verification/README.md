# streamcap

A live-stream recorder for Douyin, Bilibili, Douyu, Huya, Kuaishou, YY and
plain stream URLs, with a command line and an HTTP API.

- `src/` is the verified library: platform URL routing and room-page
  extraction, stream selection and FFmpeg input options, output formats and
  file names, the retry and time-stamp decisions of the remux loop, segment
  bookkeeping, proxy rules, notification channels, the API's request and
  response logic, and the translations. Verus checks every function there;
  all but a few state their results in contracts. The exceptions are the
  remux engine's stop flag (an atomic whose value is not modelled) and the
  readings of the clock, of which nothing is stated. The calls into
  `regex`, `serde_json`, `url`, `md5`, `time` and std that the library makes
  stand behind small trusted wrappers whose contracts are stated in their
  doc comments.
- `app/` is the program around it: argument parsing, HTTP requests to the
  platforms, FFmpeg sessions, files, timers and the web server.
- `tests/` runs the library on concrete values.
