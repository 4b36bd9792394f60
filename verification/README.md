# sensi_alternada

Alternating mouse sensitivity while the fire button is held, for an Android emulator on
Windows. The library in `src/` holds everything that decides or computes, proved with
Verus; `app/` is the Windows program around it (hook, HID I/O, panel, settings file).

- `hidpp`, `mouse` — HID++ 2.0 framing for Logitech mice: requests, answer matching,
  DPI decoding, which collection answers.
- `sinowealth`, `sinowealth_mouse` — SINOWEALTH configuration parsing, profile commands,
  the profile-reading state machine.
- `rawaccel` — the RawAccel driver engine, which only reports why it cannot switch.
- `engine` — picking and driving the DPI engine of a brand.
- `fire_button`, `hook`, `scaling` — recognising the trigger; the hook, which only
  watches the trigger, and the loop's choice of DPI level; the absolute-coordinate
  arithmetic.
- `foreground`, `panel`, `theme`, `config`, `shared`, `hid`, `brand`, `text` — focus
  detection, panel texts, ink choice, settings normalisation, shared state, UTF-16
  device paths, brands, number formatting.

All Windows calls stay in `app/`: the hook thread sends the engine's command for the
level the library picks.
