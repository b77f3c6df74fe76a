//! An incremental typing game: abbreviated big-number money, the letter
//! machine, the pane navigation and the command-line options.
pub mod magnitude;
pub mod big_number;
pub mod big_number_order;
pub mod text;
pub mod big_dollar;
pub mod names;
pub mod test_mode;
pub mod pane_module;
pub mod letter_counts;
pub mod input;
pub mod auto_typer_selector;
pub mod text_sources;
pub mod auto_queue;
pub mod upgrade;
pub mod typing;
pub mod text_pane;
pub mod game;
pub mod layout;
pub mod upgrade_pane;
pub mod money_bar;
pub mod graph_pane;
pub mod moving_target;
pub mod save_prompt;
