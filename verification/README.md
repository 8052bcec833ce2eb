# panel-rust

The core of a chat panel that lives in a host application and talks to coding
agents through a gateway. The library is written in Rust and verified with
[Verus](https://github.com/verus-lang/verus): every function states what it
gives, and Verus proves it.

## Layout

- `src/` is the library.
  - `conversation`, `protocol_types`: what a thread says, and how chunks of it
    are put together.
  - `jsonl_format`, `jsonl_lines`, `jsonl_store`, `runtime_snapshot`, `records`:
    how it is cached, paged and read again.
  - `gateway_actor`: what the gateway's notifications mean, how a thread's
    commands become calls, and what is told between them.
  - `dispatch`, `dirty`, `effect`, `effect_executor`: how messages change the
    model, and what is done outside for them.
  - `model`, `external_snapshot`, `session_cache`, `project_stores`, `prefs`,
    `skills`, `startup`, `panel`, `keys`, `list_model`, `text_util`,
    `editor_detect`: what the panel knows, shows and takes as input.
  - `skills_mcp`: the servers that give skills to agents.
  - `mock_agent`: an agent for tests that needs no model.
  - `json`, `text`, `paths`, `seqs`: what the others are built on.
- `tests/` runs the library on concrete values.
- `app/` is what stands around it: files, processes, tasks, the host's C
  functions.

Public proof functions whose names start with `law_` state what holds of the
library beyond single functions.

## What is trusted

Calls into other crates and into parts of the standard library stand behind
small functions marked `external_body`, or behind `assume_specification`. Each
says in its doc comment what it calls and what it claims.
