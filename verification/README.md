# aegis_orchestrator_core

The core of an agent orchestrator, verified with Verus: the rules by which tool
calls are let through, workflow events are recorded, models are chosen and
called, files are stored, and agents, workflows, executions and volumes are kept
apart by tenant.

- `src/domain` holds the values: agents, executions, workflows, volumes, edge
  daemons, identities, rate limits, events and errors.
- `src/infrastructure/repositories` holds the in-memory repositories and the rows
  of the relational ones.
- `src/infrastructure/temporal_event_listener.rs` maps the events of the workflow
  worker and decides what is done with each.
- `src/infrastructure/llm` chooses a model for each alias and says how a call is
  repeated.
- `src/infrastructure/seal` is the middleware that every tool call passes.
- `src/infrastructure/storage` drives a filer over HTTP and answers the storage
  calls of other nodes.
- `src/infrastructure/edge` and `src/infrastructure/docker` read stored daemons and
  groups, and what the container runtime says of a container.
- `src/application` names the directories of workflow versions.
- `src/support` holds text, time, JSON, sorting, maps keyed by text, and errors as
  chains of messages.

Where an operation talks to a database, a filer or another service, the core takes
it one step at a time: a step names what is to be done, and the answer leads to the
next step. `app/` carries the steps out.

Each public function states in its contract what it returns and when it fails.
Properties that span several functions stand beside them as public proof functions.
What is believed of other crates (`serde_json`, `uuid`, `chrono`, `ed25519-dalek`,
and `http` for the texts of statuses, through `reqwest`, which exports it again)
stands in the contracts of small wrappers, each of which makes one call.
