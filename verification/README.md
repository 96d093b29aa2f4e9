# mousekeys

A window-manager-independent Mouse Keys daemon for Linux: the numeric
keypad drives the pointer. Super+H toggles it; keypad Enter switches
between movement and scroll mode.

The decision logic is a library verified with Verus (`src/`):

- `keys` — the keypad action table (`resolve`, `is_consumed`).
- `state` — the bounded runtime state: enabled flag, mode, motion and
  scroll speeds with their clamped steps, the held button.
- `dispatch` — what each key event does: Super+H chord tracking, keypad
  actions, and the ordered list of effects (forward a key, drive the mouse,
  notify), specified by the transition `event_step`. `plan_event` gives
  the effects; `commit_event` applies the state changes as far as the
  writes succeeded (`event_outcome`).
- `mouse` — the event frames written to the virtual mouse per request.
- `input` — the keyboard heuristic, the choice of managed devices, and
  the merged key set (evdev's `AttributeSet`).
- `notify` — the text of the desktop notifications.
- `event`, `codes` — raw input events and the Linux event codes used.

`app/` is the daemon around it: it opens and grabs the evdev devices,
creates the uinput devices, polls, shows notifications over D-Bus, and
performs the effects that `dispatch::plan_event` returns, then reports
how far they got to `dispatch::commit_event`.

When Super+H fires, the program first asks the desktop shell (Quickshell's
`qs` command, run directly, with no shell) not to open its overview on the
coming Super release. This is best effort: when `qs` is missing the call
fails silently and the daemon works on.
