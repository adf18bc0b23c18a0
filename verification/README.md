# pac_tui

A terminal interface for browsing the packages that pacman has installed.

- `src/` is the verified library: the state of the interface and what each key does
  to it (`app`, `event`, with their plain-value model in `model`), the reading of
  `pacman -Q` / `pacman -Qi` output (`pacman`), the text helpers they rest on
  (`text`), the values the screen is drawn from (`ui`), and the laws that hold across
  operations (`laws`).
- `app/` runs the program: it starts pacman, polls the terminal, and draws with
  ratatui from the values the library computes.
