# dcs_grpc

The decision logic of DCS-gRPC, a gRPC server that runs inside the mission scripting
environment of DCS World, with its SimpleRadio Standalone (SRS) client and its
text-to-speech transmissions, written in Verus and proved against its contracts.

## Layout

- `src/` — the verified library.
  - `config`, `server`: the settings and what the server starts with.
  - `auth`, `services`, `status`: the API key check, the routing of requests to the
    services, and how failed calls are answered.
  - `units`, `geometry`: the units stream: which units are reported, when they are
    checked again, and when a change counts as one.
  - `srs_message`, `srs_client`, `sguid`: the SRS protocol's messages and codes, the
    client, and the decisions of its connection.
  - `tts_request`, `tts`, `audio`: how a transmission request becomes one synthesis, how
    the providers are asked, and how their audio becomes Opus frames.
  - `mission_time`, `integrity`, `lua_value`, `plugins`, `abortable`, `stats`, `decimal`:
    scenario dates, the check of the installed Lua files, the debug printout of Lua
    values, the plugins, streams that end on shutdown, the statistics counters, and
    decimal text.
- `tests/` — tests of the library on concrete values.
- `app/` — what stays outside the library: serde copies of the settings, logging, the file
  system, the requests to the text-to-speech services, and the figures computed with
  floating-point numbers (frame rates, unit angles, magnetic declination).
