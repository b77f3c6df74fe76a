use idle_game::game::Game;
use idle_game::layout::{compute_floating_area, compute_pane_layout, screen_areas, Rect};
use idle_game::test_mode::{AppModule, TestMode};

#[test]
fn test_compute_pane_layout_auto_queue_only() {
    let game = Game::new_with_test_mode(Some(TestMode::auto_queue()), 0);
    let area = Rect::new(0, 0, 100, 30);
    let panes = compute_pane_layout(area, &game);

    assert_eq!(panes.auto_keys, Some(area));
    assert_eq!(panes.text, Rect::default());
    assert_eq!(panes.upgrade, Rect::default());
    assert_eq!(panes.graph, None);
}

#[test]
fn test_compute_pane_layout_default_game() {
    let game = Game::new(0);
    let area = Rect::new(0, 0, 100, 30);
    let panes = compute_pane_layout(area, &game);

    assert_ne!(panes.text, Rect::default());
    assert_ne!(panes.upgrade, Rect::default());
    assert_eq!(panes.auto_keys, None);
    assert_eq!(panes.graph, None);
}

#[test]
fn text_and_upgrades_stack_in_the_main_column() {
    let game = Game::new(0);
    let panes = compute_pane_layout(Rect::new(0, 0, 100, 30), &game);
    assert_eq!(panes.text, Rect::new(0, 0, 100, 7));
    assert_eq!(panes.upgrade, Rect::new(0, 7, 100, 23));
}

#[test]
fn letter_machine_takes_a_fixed_column_beside_the_main_one() {
    let mut game = Game::new(0);
    game.game_state.automation_unlocked = true;
    let panes = compute_pane_layout(Rect::new(0, 0, 100, 30), &game);
    assert_eq!(panes.auto_keys, Some(Rect::new(42, 0, 58, 30)));
    assert_eq!(panes.text, Rect::new(0, 0, 42, 7));
    assert_eq!(panes.upgrade, Rect::new(0, 7, 42, 23));
}

#[test]
fn a_single_pane_takes_the_whole_area() {
    let area = Rect::new(3, 4, 50, 20);
    let game = Game::new_with_test_mode(Some(TestMode::single(AppModule::Text)), 0);
    let panes = compute_pane_layout(area, &game);
    assert_eq!(panes.text, area);
    assert_eq!(panes.auto_keys, None);

    let game = Game::new_with_test_mode(Some(TestMode::single(AppModule::Graph)), 0);
    let panes = compute_pane_layout(area, &game);
    assert_eq!(panes.graph, Some(area));
    assert_eq!(panes.text, Rect::default());
}

#[test]
fn no_pane_gets_no_area() {
    let game = Game::new_with_test_mode(Some(TestMode::single(AppModule::MoneyBar)), 0);
    let panes = compute_pane_layout(Rect::new(0, 0, 80, 24), &game);
    assert_eq!(panes.text, Rect::default());
    assert_eq!(panes.upgrade, Rect::default());
    assert_eq!(panes.auto_keys, None);
    assert_eq!(panes.graph, None);
}

#[test]
fn overlay_sits_in_the_middle_three_fifths() {
    assert_eq!(compute_floating_area(Rect::new(0, 0, 100, 50)), Rect::new(20, 10, 60, 30));
}

#[test]
fn money_bar_takes_three_rows_on_top() {
    let screen = Rect::new(0, 0, 100, 30);
    assert_eq!(
        screen_areas(screen, true),
        (Some(Rect::new(0, 0, 100, 3)), Rect::new(0, 3, 100, 27))
    );
    assert_eq!(screen_areas(screen, false), (None, screen));
}
