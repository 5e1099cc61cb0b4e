# hu

`hu` is a developer's command-line toolbox: it reads source files in
outlines and windows, remembers which files an assistant has seen, decorates
`ls` output, schedules cron jobs, lists Kubernetes pods, summarises GitHub CI
failures, and drives a few AWS, Jira and PagerDuty workflows.

The library under `src/` holds the logic of these commands and is verified
with Verus: each public function states what it returns in its `ensures`
clause, and the laws that tie several functions together are public proof
functions (`lemma_*`).

Layout:

- `src/text.rs`, `src/matcher.rs`: character-level helpers and the regular
  expression and path calls the rest builds on.
- `src/read/`: outlines, public interfaces, line windows and diffs of files.
- `src/context.rs`: the record of tracked files and what is shown of them.
- `src/ls.rs`: icons and colours for `ls` output.
- `src/cron.rs`, `src/eks.rs`, `src/kube.rs`, `src/log.rs`, `src/gh.rs`,
  `src/jira.rs`, `src/pagerduty.rs`, `src/newrelic.rs`, `src/setup.rs`,
  `src/config.rs`, `src/aws/`: the logic of the other commands.
- `app/`: the executable around the library (argument parsing, files,
  processes, network calls, printing).
- `tests/`: tests of the library's public functions.
