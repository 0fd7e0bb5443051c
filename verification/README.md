# surface-dial-daemon

The logic of a Linux userspace controller for the Microsoft Surface Dial,
verified with Verus.

- `src/` is the verified library: the dial's event classification and
  long-press detection (`dial_device`), the virtual keyboard's key table and
  the events that clicks and scrolls write (`fake_input`), the control modes
  and the paddle's momentum (`controller`), `modes.yaml` modes
  (`config_mode`), focus-based mode switching (`focus_watcher`) and the
  error messages (`error`).
- `app/` is the part that talks to the system: uinput devices, udev and
  evdev event files, threads and channels, D-Bus, and reading the
  configuration files. It hands plain values to the library and performs
  what the library decides.
- `tests/` exercises the library.
