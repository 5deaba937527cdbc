# verge_config

The configuration core of a desktop proxy client, verified with Verus.

- `src/` is the library. Every function of it is verified except the
  trusted wrappers around outside calls (each marked
  `#[verifier::external_body]`, with a doc comment naming the call and
  what its contract claims of it):
  - `profiles`, `prfitem`, `profile_laws`: the profile list (lookup, append,
    reorder, patch, refresh, removal with extensions, preview, the sweep of
    unused profile files) and the laws that hold across these operations;
  - `verge`: application settings (defaults, patching, log level, core name
    checks) and their laws;
  - `runtime`: the runtime configuration as an ordered mapping, reading it
    from YAML text (through `serde_yaml_ng`, merge keys applied), and the
    patching of the settings that change without regenerating it;
  - `encrypt`: AES-256-GCM encryption of secret settings, with the
    round trip stated in the contracts;
  - `window`, `server`, `manager`, `logging`, `notification`, `config`,
    `schtasks`, `system`, `constants`, `help`, `text`: the decisions of the
    window manager, the single-instance server, the core process, the log
    filter, notifications, start-up, scheduled tasks, host reports, paths,
    and small text utilities.
- `tests/` runs the library on concrete values.
- `app/` is the program around it: directories, files, logging, the local
  server, the core process and host queries.

## The runtime mapping

`serde_yaml_ng::Mapping` is not held behind trusted items: a name for its
contents would have to range over plain values, but its values are
`serde_yaml_ng::Value`s, and the patching logic reads their structure
(whether a value is itself a mapping, and that mapping's string keys).
The library therefore holds a mapping as its entries, string keys as text
and nested mappings one level deep, with the YAML values carried unread;
that no key occurs twice is stated as `mapping_wf` and kept by every
operation. Text becomes such a mapping only through `serde_yaml_ng`
(`mapping_from_text`), and `app/` turns it back into a YAML mapping to write
it.
