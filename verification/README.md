# caravela

A platform for multi-agent programs in the style of the Foundation for Intelligent
Physical Agents (FIPA): agents with identifiers `nickname@hap`, a platform directory,
an Agent Management System (AMS) that searches, suspends, resumes, terminates and
deregisters agents, and messages between agents.

Layout:

- `src/` — the library, verified with Verus: identifiers, the life cycle of agents
  (`entity/agent.rs`), the execution phases of an agent (`entity/agent/behavior.rs`),
  messages (`entity/messaging.rs`), the AMS protocol (`entity/service/`), the platform
  directory (`deck.rs`) and the admission of agents (`platform.rs`). The service
  conditions are implemented by users; the library states which conditions a request
  needs, in which order they are asked, and that a request is accepted exactly when
  every one of them answered `true`, but not how a user's conditions answer.
- `app/` — the runtime around it: threads, channels, thread priorities, the global
  directory and the AMS thread.
- `tests/` — tests of the library.
