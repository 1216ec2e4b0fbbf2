# dee_config_gen

Turns YAML/JSON job descriptions into Dolby Encoding Engine (DEE) XML/JSON
job configurations, and prepares the invocation of an external runner.

The library in `src/` is verified with Verus:

- `decode`, `doc` — reading a job spec from its YAML/JSON document.
- `spec`, `schema`, `registry`, `metadata` — job spec types, parameter rules,
  constraints and template metadata.
- `resolve` — resolution of a job against its template: profile and mode
  checks, file lists, Windows path normalisation, defaults, overrides,
  constraints and run-time checks.
- `template` — the templates (`ac4_v1`, `atmos_ec3_v1`, `pcm_ddp_v1`,
  `thd_v1`, `thd_atmos_wav_v1`) and the shared AC-4 IMS settings, with their
  XML and JSON trees.
- `render`, `json` — XML rendering and JSON text of configuration trees.
- `mixed_inputs` — the `inputs` block of the mixed TrueHD jobs
  (`thd_atmos_wav_v1`, `thd_atmos_wav_list_v1`): the checks that give the
  names to probe, and the input context built from the probed media.
  A `thd_atmos_wav_v1` job resolves in two steps, `resolve_mixed_prepare`
  (the names to probe) and `resolve_mixed_finish` (resolution from the
  probed media); the program probes the files in between.
- `media` — WAV header decoding and input consistency checks.
- `runner` — runner command, arguments, environment, directories to prepare
  and whether the generated configuration is kept.
- `catalog` — the template catalog printed by the command line.
- `bridge`, `ffi` — validation and generation with failures classified by
  stage, as the foreign-language interfaces report them.

`app/` holds the command-line program, file and process handling, and the C
interface. Laws of the library are public proof functions named `law_*`.
