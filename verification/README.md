# zero

The verified core of an AI agent runtime.

`src/` is the library, each function proved against its contract: the agent loop's decisions, the
streaming assembly of answers, the token estimate and context compaction,
the terminal front end's state machine and key bindings, the session store
and the task API's request rules, the security checks of requests, the
configuration defaults, the coordination policies and the hook registry. `tests/` runs it.

`app/` is the program around it: decoding JSON and YAML, files, the
terminal, the async agent-loop driver over provider and tool services, and
the process-wide message count.
