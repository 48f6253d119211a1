# mel_dl

Downloads a week's files of a course module from the MeL learning platform
through a Chromium-based browser driven over WebDriver.

- `src/` is the verified library: configuration and its defaults, the choice
  of module and week folder, the CSS selectors and URLs the browser is sent
  to, reading week numbers out of folder titles, decimal numerals, and the
  sign-in as a state machine.
- `app/` is the program around it: reading `settings.json`, `modules.json`
  and `credentials.json`, the command line, the browser session, and moving
  the downloaded files into place.
- `tests/` runs the library on concrete values.
