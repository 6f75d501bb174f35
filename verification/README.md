# cleardevil

Control of the YUU Little Devil (LD-1) Bluetooth device through a small HTTP
interface.

- `src/` is the verified library:
  - `commands` — the five-byte commands of the device (preset modes 1–10,
    rotation and suction intensities 0–20, stop, initialisation) and the
    proofs that every command is framed the same way and that no two settings
    share a command;
  - `api` — the checks of the HTTP requests, the texts and statuses of
    refusals, and the replies once a command has been sent;
  - `send` — the decisions taken while writing a command to the device
    (connect when needed, discover, offer the command to the characteristics
    in order until one accepts it), with the proof that a command reaches the
    device exactly when a characteristic accepts it;
  - `scan` — recognising the device by its advertised name;
  - `text` — the hexadecimal listing of a command used in replies.
- `app/` is the program: Bluetooth (btleplug), the HTTP server (actix-web),
  pauses (tokio) and JSON bodies (serde_json).
- `tests/` runs the library on concrete values.
