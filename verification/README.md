# idle_game

An incremental typing game for the terminal: copy lines of text to earn
money, buy upgrades, and let a letter machine type for you.

The game's logic is a library verified with Verus (`src/`):

- `big_number`, `big_number_order`, `big_dollar`, `magnitude`, `text`:
  amounts in milli-units with a significand and a power of 1000, their
  arithmetic, order and abbreviated rendering (`1.234 M`).
- `game`: the game state apart from its money, the focus and overlays, what
  keys, clicks and clock ticks do, and what buying an upgrade does.
- `auto_queue`, `auto_typer_selector`, `letter_counts`: the letter machine.
- `text_pane`, `typing`, `text_sources`: the line being typed and how it is
  scored and marked.
- `layout`, `upgrade_pane`, `money_bar`, `graph_pane`, `pane_module`: where
  the panes go and what they show.
- `test_mode`, `names`, `save_prompt`: the command line and the questions
  at start and exit.
- `moving_target`: a small number-guessing game.

`app/` holds the program around it: the terminal, the input thread, the
clock, the money (kept in floating point), and the JSON save files.
