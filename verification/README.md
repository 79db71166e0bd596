# wifi_menu

The logic of a small Wi-Fi setup device: an OLED display, four buttons
(scroll down, scroll up, select, back), a menu that lists the networks in
reach, a character-by-character password entry, and a password file that
records the credentials of the networks joined.

- `src/` is the verified library.
  - `model.rs`: the menu's state as mathematical values, and what each button
    press or release does to it and what the display shows.
  - `menu.rs`: `WifiMenu`, the executable menu, proved to follow the model.
  - `alphabet.rs`: the characters that password entry cycles through.
  - `text.rs`: trimming and line splitting of text.
  - `network.rs`: the SSID list from a scan's output, the connect command,
    the report of a connect attempt, and the password file's record line.
  - `laws.rs`: properties proved across calls (a held button acts once, a
    double select accepts the password, scrolling wraps, and others).
- `app/main.rs` is the device program: it reads the GPIO pins, draws on the
  SSD1306 display, runs the scan and connect commands and appends to the
  password file, asking the library for every decision.
- `tests/` runs the library on concrete inputs.
