# rkvm_windows

The Windows side of rkvm's input forwarding, as a verified library.

- `src/event.rs` – the forwarded input events.
- `src/mapping.rs` – keys to set-1 scan codes, buttons to mouse flags.
- `src/input.rs` – the `SendInput` records and their Win32 flag values.
- `src/normalizer.rs` – scaling of absolute axes onto 0..=65535.
- `src/settings.rs` – what a device declares and what is kept of it.
- `src/writer.rs` – the injector: events to input records, key repeat.
- `src/devices.rs` – the service: created devices and which events pass.
- `src/client_writer.rs` – updates sent to the injector process.
- `src/injector.rs` – when the injector rebinds to the input desktop.
- `src/service.rs` – service control answers, statuses, the logon process.
- `src/args.rs` – the client's command line.

`app/` holds the I/O: clap parsing, the async writer interfaces, the
injector thread and the Windows service plumbing (the last two only on
Windows).
