use idle_game::auto_queue::{count_color, AutoQueue, CountColor};
use idle_game::auto_typer_selector::AutoTyperSelector;
use idle_game::game::Game;
use idle_game::graph_pane::GraphPane;
use idle_game::input::Key;
use idle_game::layout::Constraint;
use idle_game::money_bar::MoneyBar;
use idle_game::pane_module::{focus_border_color, BorderColor, LayoutContext};
use idle_game::text_pane::TextPane;
use idle_game::text_sources::TextLibrary;
use idle_game::upgrade::UpgradeId;
use idle_game::upgrade_pane::UpgradePane;

#[test]
fn upgrade_rows_line_up_their_columns() {
    let mut game = Game::new(0);
    game.game_state.upgrade_levels.set(UpgradeId::IncreaseCorrectIncrement, 3);
    let shown = vec![UpgradeId::IncreaseCorrectIncrement, UpgradeId::ResetMoneyForTrust];
    let costs = vec!["$0.086".to_string(), "$0.000".to_string()];
    let rows = UpgradePane::render_rows(&game, &shown, &costs);
    assert_eq!(
        rows,
        vec![
            "[q] (3/50) $0.086 Writing Skill --- Add a 10th more cent per correct letter"
                .to_string(),
            "[w]        $0.000 Beg for help  --- Lose trust to get back to $0".to_string(),
        ]
    );
}

#[test]
fn upgrade_rows_without_levels_drop_the_level_column() {
    let game = Game::new(0);
    let shown = vec![UpgradeId::ResetMoneyForTrust];
    let costs = vec!["$0".to_string()];
    let rows = UpgradePane::render_rows(&game, &shown, &costs);
    assert_eq!(rows, vec!["[q] $0 Beg for help Lose trust to get back to $0".to_string()]);
    assert!(UpgradePane::render_rows(&game, &vec![], &vec![]).is_empty());
}

#[test]
fn upgrade_names_and_levels() {
    assert_eq!(UpgradeId::Seniority.name(), "Seniority");
    assert_eq!(UpgradeId::DisablePenalty.description(), "Mistakes no longer cost money");
    assert_eq!(UpgradeId::AutoLetterCount.max_level(), 200);
    assert_eq!(UpgradeId::IncreaseCorrectIncrement.max_level(), 50);
    assert!(UpgradeId::ResetMoneyForTrust.is_infinite());
    assert!(!UpgradeId::Graphs.is_infinite());
    for i in 0..10 {
        assert_eq!(UpgradeId::from_index(i).index(), i);
    }
}

#[test]
fn money_bar_shows_trust_and_seniority_once_they_matter() {
    let mut game = Game::new(0);
    assert_eq!(MoneyBar::bar_line(&game, "$30.000"), "Money: $30.000");
    game.game_state.streaks_unlocked = true;
    assert_eq!(MoneyBar::bar_line(&game, "$1"), "Money: $1 (Trust: 0%)");
    game.game_state.trust_level = -4;
    game.game_state.seniority_level = 2;
    assert_eq!(MoneyBar::bar_line(&game, "$1"), "Money: $1 (Trust: -4%) Typer III");
    assert_eq!(MoneyBar::height_constraint(), Constraint::Length(3));
}

#[test]
fn graph_plots_the_buckets_oldest_first() {
    let order = GraphPane::bucket_order(0);
    assert_eq!(order.len(), 30);
    assert_eq!(order[0], 1);
    assert_eq!(order[29], 30);
    let order = GraphPane::bucket_order(30);
    assert_eq!(order[0], 0);
    assert_eq!(order[29], 29);
    let order = GraphPane::bucket_order(7);
    assert_eq!(order[0], 8);
    assert_eq!(order[23], 0);
    assert_eq!(order[29], 6);
    assert!(!order.contains(&7));
}

#[test]
fn side_columns_are_narrow_beside_other_panes() {
    let alone = LayoutContext {
        text_active: false,
        upgrade_active: false,
        auto_active: true,
        graph_active: false,
    };
    assert_eq!(AutoQueue::column_constraint(&alone), Some(Constraint::Fill(1)));
    let beside = LayoutContext { text_active: true, ..alone };
    assert_eq!(AutoQueue::column_constraint(&beside), Some(Constraint::Length(58)));
    assert_eq!(GraphPane::column_constraint(&beside), Some(Constraint::Length(62)));
    let graph_alone = LayoutContext { auto_active: false, graph_active: true, ..alone };
    assert_eq!(GraphPane::column_constraint(&graph_alone), Some(Constraint::Fill(1)));
    assert_eq!(GraphPane::main_column_row_constraint(), None);
    assert_eq!(TextPane::main_column_row_constraint(), Some(Constraint::Length(7)));
    assert_eq!(UpgradePane::main_column_row_constraint(), Some(Constraint::Min(5)));
}

#[test]
fn titles() {
    assert_eq!(TextPane::title(), "Text");
    assert_eq!(UpgradePane::title(), "Upgrades");
    assert_eq!(AutoQueue::title(), "Keys");
    assert_eq!(GraphPane::title(), "Graphs");
    assert_eq!(MoneyBar::title(), "Money");
    assert_eq!(AutoTyperSelector::title(), "Auto Typers Selector");
}

#[test]
fn colours_of_counts_and_borders() {
    assert_eq!(count_color(0), CountColor::Red);
    assert_eq!(count_color(9), CountColor::Orange);
    assert_eq!(count_color(10), CountColor::Green);
    assert_eq!(focus_border_color(true), BorderColor::Cyan);
    assert_eq!(focus_border_color(false), BorderColor::White);
}

#[test]
fn selector_lines_show_free_typers_and_bars() {
    let mut selector = AutoTyperSelector::default();
    selector.max_auto_typers = 3;
    assert!(!selector.handle_input(Key::Char('b')));
    assert!(!selector.handle_input(Key::Char('b')));
    let lines = selector.render_texts();
    assert_eq!(lines.len(), 29);
    assert_eq!(lines[0], "Available auto typers: 1");
    assert_eq!(lines[1], "    a: ");
    assert_eq!(lines[2], "    b: ████");
    assert_eq!(lines[27], "lowercase: increase count, uppercase: decrease count");
    assert_eq!(lines[28], "Press Enter to confirm");
}

#[test]
fn letter_machine_lines_show_text_then_grid() {
    let library = TextLibrary::from_texts("", "", "first\nsecond\nthird");
    let mut queue = AutoQueue::new(0);
    queue.increment_letter_count('c', 12);
    let lines = queue.render_texts(28, &library);
    assert_eq!(lines.len(), 28);
    assert_eq!(lines[0], "second");
    assert_eq!(lines[1], "first");
    let blank_grid = " ".repeat(50);
    assert_eq!(lines[2], format!("{blank_grid} a 0"));
    assert_eq!(lines[4], format!("{blank_grid} c 12"));
    assert_eq!(lines[27], format!("{blank_grid} z 0"));
}
