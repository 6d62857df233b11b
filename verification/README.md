# job_scheduler

A job queue served over HTTP. Clients submit jobs (send an email, call a
webhook); workers claim them from a PostgreSQL table, run them, and write
the outcome back, retrying failures after an exponential backoff.

- `src/` is the verified library: the rules of the queue that do not need a
  database or a network. Job dispatch and settlement with the retry backoff
  (`executor`), worker errors (`error`), planning and classifying webhook
  calls (`webhook`), building emails (`email`), the server's error replies
  and job creation defaults (`server`), job statuses and statistics
  (`models`), request metric labels (`metrics`), configuration
  (`config`), the load test's bookkeeping (`benchmark`), and decimal
  rendering and string comparison (`text`).
- `app/` runs the programs around it: the HTTP server, the worker, the
  worker supervisor, the task API server and the load test (chosen by the
  first argument), with the SQL queries, HTTP and SMTP I/O.
- `tests/` exercises the library on concrete values.
