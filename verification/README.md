# Codex Hoshikage Gateway

A gateway that lets one authorized user talk to Codex in Discord. The gateway starts its own Codex
app server; each text channel or forum post keeps its own conversation and working folder. Approvals,
model choices, stopping a task and recovering a stalled conversation happen in Discord. A task whose
outcome is uncertain is never silently run again.

The decisions of the gateway are a library whose behaviour is stated in contracts and proved with
Verus. Around it stands an ordinary program that does the input and output.

## Layout

- `src/` is the verified library: what is accepted, sent, shown and stored.
  - `domain`, `direct_store`, `direct_interaction_store`, `direct_control_store`, `direct_conversation`:
    the states of requests, decisions, controls and conversations, and that nothing is sent twice.
  - `direct_run`, `direct_run_actor`, `codex_transport`, `codex_execution`: sending a request to the app
    server and watching its turn.
  - `direct_approval`, `direct_menus`, `direct_buttons`, `run_grants`: requests for permission, shown
    whole before they can be accepted, and permissions for the rest of a run.
  - `delivery`, `direct_delivery`, `pages`, `direct_content`, `direct_images`, `generated_images`: what
    Discord shows, each part once.
  - `files`, `paths`, `direct_artifacts`, `direct_workspace`: attachments, artifacts and folders.
  - `mcp_form`, `mcp_grants`, `mcp_details`, `mcp_grant_menu`, `mcp_inline`: forms and permissions of
    tools.
  - `admin`, `backup`, `direct_migration`, `program`: the operator's side.
  - `application`, `commands`, `command_replies`, `operations`, `approval_ui`: the decisions of the
    runtime behind a proxy. The program in `app/` runs the direct runtime only.
  - `codec`: the calls into other crates (JSON, SHA-256, base64, timestamps, URLs, images, UUIDs), with
    what is claimed of each.
  - `button_laws` and the proof functions of the other modules state what holds across functions.
- `tests/` runs the library on concrete values.
- `app/` is the program: the command line, SQLite, Discord, the child process, files.
