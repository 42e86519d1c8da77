# gitlab-merge-pipeline

A bot that merges the open merge requests of GitLab repositories one at a
time: it queues them in the order GitLab lists them, rebases the running
one when GitLab asks for it, enables auto-merge, triggers its manual jobs
and records whether it was merged, closed, or failed.

- `src/` is the verified library: the queue (`merge_queue`), the steps that
  move the running merge request along (`stages`), one round of work on a
  queue as a step function from GitLab's answers to the next request
  (`round`), the data GitLab reports
  (`api`), the repositories (`config`) and time stamps (`time`).
- `app/` is the program around it: configuration, logging, the GitLab
  requests, the terminal display and the polling loop.
- `tests/` exercises the library on concrete queues and reports.
