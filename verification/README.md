# drag_capture

A cross-platform screenshot utility: take a screenshot of a monitor after an optional
delay, draw arrows, circles, lines, rectangles and text on it, crop it, undo or reset the
edits, copy it to the clipboard or save it, and trigger the common actions with global
hotkeys that can be rebound and are kept in `./config/hotkeys`.

## Layout

- `src/` is the verified library (Verus):
  - `text.rs`: trimming, splitting and integer parsing, each against a specification;
  - `keys.rs`: key codes, modifiers and toolkit keys, and the names they are written under;
  - `hotkey_action.rs`: the actions and their numbers;
  - `config.rs`: reading the hotkey configuration into a table, writing a table back,
    and rebinding a hotkey;
  - `config_laws.rs`: a sound table written back is read again as the same table, and
    rebinding keeps a table sound;
  - `app_state.rs`: the window's state: screenshot history, delay timer, save form,
    hotkey commands and hotkey changes;
  - `geometry.rs`: the outline of a rectangle drawn between two corners.
- `tests/` runs the library on concrete values, against `global_hotkey` and `std`.
- `app/` is the program: the `eframe` window, screen capture, drawing with floating-point
  coordinates, the clipboard, the file system and hotkey registration.
