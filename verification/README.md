# news_letter

A newsletter service whose decisions are verified with Verus.

- `src/domain/subscriber_email.rs` — subscriber addresses, checked by the
  `validator` crate behind one trusted wrapper.
- `src/response.rs` — responses as they are stored and replayed.
- `src/idempotency/` — idempotency keys, the stored row of a response, and
  the decision between processing a request and replaying its answer.
- `src/routes/newsletters.rs` — the publication of an issue as a state
  machine: the caller performs each action (database work, answering) and
  reports the outcome; laws about repeated requests are proved there.
- `src/routes/login.rs` — the login page with its flash messages.
- `src/exit_report.rs` — the log record of how a background task ended.
- `app/main.rs` — the HTTP server, Postgres access and logging.
