# camctrl

A command line tool to find ONVIF cameras on the local networks and to show
and change their configuration (device information, clock, network, users,
reboot). The logic is a Verus-verified library; the program around it does
the network and file I/O.

## Layout

- `src/` — the verified library:
  - `credentials.rs` — choosing the credentials for a camera from a credential file;
  - `device.rs` — connecting: credentials given together, and which advertised
    services to use, each checked against the device's base URI;
  - `report.rs` — the text of the device report (identity, clock, network, users);
  - `clock.rs` — camera date and time, its text, and the clock drift check;
  - `command.rs` — camera URI, user lookup, messages and exit status of the commands;
  - `discovery.rs` — local addresses to probe from, the probe header, messages;
  - `error.rs` — device errors and their messages;
  - `uri.rs` — URL parsing and the root URI, through the `url` crate;
  - `text.rs` — decimal rendering, concatenation and prefix tests.
- `tests/` — tests of the library on concrete values.
- `app/` — the program: command line parsing, the SOAP calls, WS-Discovery over
  UDP multicast, reading the credential file, printing.

## Credential file

```json
[
  {
    "user": "USER_NAME",
    "pass": "PASSWORD",
    "serial": ["CAMERA_SERIAL"]
  }
]
```

`serial` is optional; an entry without serial numbers applies to every camera.
