# luma_forge

The workspace backend of LumaForge: remote GPU workspaces that are provisioned on a
cloud provider (RunPod) and catalogued locally. The library is written in Verus and every
function in `src/` is verified against its contract.

## Layout

- `src/domain.rs` – workspaces, their resource snapshots, failures and progress.
- `src/values.rs` – the text values under which the catalog stores the workspace enums,
  with round-trip proofs.
- `src/text.rs` – character-level string helpers with exact specifications.
- `src/workspace_catalog/` – the workspace catalog: validation and row layout of
  catalogued workspaces (`record`), the rows of a workspace's details and how a whole
  workspace is read back from them (`details`), the persistence version (`persistence`), the
  contract that a catalog store is to meet, with the read-after-write laws of the sequence
  model it is stated over (`repository`), and the service in front of such a store
  (`service`). The SQLite catalog in `app/` is async and does not implement that synchronous
  contract; it uses the library's row layout and row readers directly.
- `src/workspace_provisioning/` – provisioning: errors and how collaborators' errors map
  onto them, recorded failures, progress, readiness, the provisioner worker protocol
  (`gateway`), the environment preparation state machine (`provisioner`), the RunPod sync
  steps (`runpod`), the steps that never duplicate a provider resource (`steps`), the
  coordinator that keeps operations on one workspace apart, and the service decisions.
- `src/workspace_provisioner/` – the provisioner worker protocol whose reports carry
  free-text diagnostics, with the proof that a sanitized diagnostic is safe to show.
- `app/` – the parts that do I/O: the worker over HTTP (reqwest), the catalog in SQLite
  (sqlx), the clock (time), and the async driver of the environment sync.
- `tests/` – tests of the library through its public interface.

Each function that waits on an outside service is split: the library decides the next
call from what the last one answered, and `app/` makes the calls.
