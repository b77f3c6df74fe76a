use idle_game::game::{next_trust_level, upgrade_for_key, Game, KeyOutcome, Purchase, UPGRADE_KEYS};
use idle_game::input::Key;
use idle_game::layout::Rect;
use idle_game::pane_module::{LayoutContext, ModuleId};
use idle_game::test_mode::{AppModule, TestMode};
use idle_game::text_sources::{TextLibrary, TextSource};
use idle_game::upgrade::UpgradeId;

fn all(value: bool) -> Vec<bool> {
    vec![value; 10]
}

fn press(game: &mut Game, key: Key) -> KeyOutcome {
    game.handle_key(key, false, &all(true), &all(true))
}

#[test]
fn test_mode_auto_queue_boot() {
    let game = Game::new_with_test_mode(Some(TestMode::auto_queue()), 0);

    assert!(game.is_module_active(ModuleId::AutoQueue));
    assert!(!game.is_module_active(ModuleId::Text));
    assert!(!game.is_module_active(ModuleId::Upgrade));
    assert!(!game.is_module_active(ModuleId::MoneyBar));
    assert_eq!(game.game_state.current_pane, ModuleId::AutoQueue);
}

#[test]
fn new_game_focuses_the_text_pane() {
    let game = Game::new(0);
    assert_eq!(game.game_state.current_pane, ModuleId::Text);
    assert_eq!(game.game_state.window_x, 0);
    assert_eq!(game.game_state.window_y, 0);
    assert!(!game.should_quit);
    assert!(game.is_module_active(ModuleId::Text));
    assert!(game.is_module_active(ModuleId::Upgrade));
    assert!(!game.is_module_active(ModuleId::AutoQueue));
    assert!(!game.is_module_active(ModuleId::Graph));
    assert_eq!(game.get_floating_pane(), None);
}

#[test]
fn tab_twice_returns_to_the_text_pane() {
    let mut game = Game::new(0);
    press(&mut game, Key::Tab);
    assert_eq!(game.game_state.current_pane, ModuleId::Upgrade);
    assert_eq!((game.game_state.window_x, game.game_state.window_y), (0, 1));
    press(&mut game, Key::Tab);
    assert_eq!(game.game_state.current_pane, ModuleId::Text);
    assert_eq!((game.game_state.window_x, game.game_state.window_y), (0, 0));
}

#[test]
fn arrows_move_between_text_and_upgrades() {
    let mut game = Game::new(0);
    press(&mut game, Key::Down);
    assert_eq!(game.game_state.current_pane, ModuleId::Upgrade);
    press(&mut game, Key::Down);
    assert_eq!(game.game_state.current_pane, ModuleId::Upgrade);
    press(&mut game, Key::Up);
    assert_eq!(game.game_state.current_pane, ModuleId::Text);
    press(&mut game, Key::Up);
    assert_eq!(game.game_state.window_y, 0);
    // Without the letter machine there is no column to the right.
    press(&mut game, Key::Right);
    assert_eq!(game.game_state.window_x, 0);
    assert_eq!(game.game_state.current_pane, ModuleId::Text);
}

#[test]
fn right_reaches_the_letter_machine_once_unlocked() {
    let mut game = Game::new(0);
    game.game_state.automation_unlocked = true;
    press(&mut game, Key::Right);
    assert_eq!(game.game_state.current_pane, ModuleId::AutoQueue);
    press(&mut game, Key::Left);
    assert_eq!(game.game_state.current_pane, ModuleId::Text);
}

#[test]
fn esc_and_control_keys_quit() {
    let mut game = Game::new(0);
    assert!(matches!(press(&mut game, Key::Esc), KeyOutcome::Nothing));
    assert!(game.should_quit);

    let mut game = Game::new(0);
    game.handle_key(Key::Char('c'), true, &all(true), &all(true));
    assert!(game.should_quit);

    let mut game = Game::new(0);
    game.handle_key(Key::Char('d'), true, &all(true), &all(true));
    assert!(game.should_quit);

    let mut game = Game::new(0);
    game.handle_key(Key::Char('x'), true, &all(true), &all(true));
    assert!(!game.should_quit);
}

#[test]
fn typing_and_enter_submit_the_line() {
    let mut game = Game::new(0);
    for c in "hi".chars() {
        assert!(matches!(press(&mut game, Key::Char(c)), KeyOutcome::Nothing));
    }
    press(&mut game, Key::Char('x'));
    press(&mut game, Key::Backspace);
    assert_eq!(game.game_state.text_pane.typed, "hi");
    match press(&mut game, Key::Enter) {
        KeyOutcome::LineSubmitted { typed, line } => {
            assert_eq!(typed, "hi");
            assert_eq!(line, 0);
        }
        _ => panic!("Enter on the text pane submits the line"),
    }
    assert_eq!(game.game_state.text_pane.typed, "");
    assert_eq!(game.game_state.text_pane.current_line, 1);
}

#[test]
fn upgrade_keys_buy_the_listed_upgrades() {
    let mut game = Game::new(0);
    press(&mut game, Key::Tab);
    assert_eq!(game.game_state.current_pane, ModuleId::Upgrade);

    let mut unlocked = all(false);
    unlocked[UpgradeId::UnlockStreak.index()] = true;
    unlocked[UpgradeId::UnlockAutomation.index()] = true;
    let shown = game.get_displayed_upgrades(&unlocked);
    assert_eq!(shown, vec![UpgradeId::UnlockStreak, UpgradeId::UnlockAutomation]);
    assert_eq!(upgrade_for_key(&shown, 'w'), Some(UpgradeId::UnlockAutomation));
    assert_eq!(upgrade_for_key(&shown, 'e'), None);
    assert_eq!(upgrade_for_key(&shown, 'z'), None);

    let outcome = game.handle_key(Key::Char('w'), false, &unlocked, &all(true));
    match outcome {
        KeyOutcome::UpgradeAttempt { upgrade, result } => {
            assert_eq!(upgrade, UpgradeId::UnlockAutomation);
            assert_eq!(result, Purchase::Bought);
        }
        _ => panic!("an upgrade key tries to buy"),
    }
    assert!(game.game_state.automation_unlocked);
    assert_eq!(game.game_state.upgrade_levels.get(UpgradeId::UnlockAutomation), 1);
    // Bought out, it leaves the list.
    let shown = game.get_displayed_upgrades(&unlocked);
    assert_eq!(shown, vec![UpgradeId::UnlockStreak]);

    // A key past the list buys nothing.
    assert!(matches!(
        game.handle_key(Key::Char('w'), false, &unlocked, &all(true)),
        KeyOutcome::Nothing
    ));
}

#[test]
fn purchase_outcomes() {
    let mut game = Game::new(0);
    assert_eq!(game.buy_upgrade(UpgradeId::Graphs, false, true), Purchase::Locked);
    assert_eq!(game.buy_upgrade(UpgradeId::Graphs, true, false), Purchase::NotEnoughMoney);
    assert!(!game.game_state.graphs_unlocked);
    assert_eq!(game.buy_upgrade(UpgradeId::Graphs, true, true), Purchase::Bought);
    assert!(game.game_state.graphs_unlocked);
    assert_eq!(game.buy_upgrade(UpgradeId::Graphs, true, true), Purchase::MaxedOut);

    assert_eq!(game.buy_upgrade(UpgradeId::CapitalLetterBonus, true, true), Purchase::Bought);
    assert!(game.game_state.capital_letter_bonus_unlocked);
    assert_eq!(game.game_state.text_pane.current_text, TextSource::IntroCapital);

    for level in 0..5 {
        assert_eq!(game.game_state.seniority_level, level);
        assert_eq!(game.buy_upgrade(UpgradeId::Seniority, true, true), Purchase::Bought);
    }
    assert_eq!(game.buy_upgrade(UpgradeId::Seniority, true, true), Purchase::MaxedOut);
    assert_eq!(game.game_state.upgrade_levels.get(UpgradeId::Seniority), 5);
}

#[test]
fn begging_for_help_costs_trust_and_never_runs_out() {
    let mut game = Game::new(0);
    for _ in 0..3 {
        assert_eq!(game.buy_upgrade(UpgradeId::ResetMoneyForTrust, true, true), Purchase::Bought);
    }
    assert_eq!(game.game_state.trust_level, -3);
    assert_eq!(game.game_state.upgrade_levels.get(UpgradeId::ResetMoneyForTrust), 0);
}

#[test]
fn auto_letter_count_opens_the_selector() {
    let mut game = Game::new(0);
    assert_eq!(game.buy_upgrade(UpgradeId::AutoLetterCount, true, true), Purchase::Bought);
    assert_eq!(game.game_state.auto_queue.auto_typer_selector.max_auto_typers, 1);
    assert_eq!(game.floating_pane_queue, vec![ModuleId::AutoTyperSelector]);
    assert_eq!(game.buy_upgrade(UpgradeId::AutoLetterCount, true, true), Purchase::Bought);
    assert_eq!(game.floating_pane_queue, vec![ModuleId::AutoTyperSelector]);
    assert_eq!(game.get_floating_pane(), Some(ModuleId::AutoTyperSelector));

    // The next key goes to the overlay: two typers on 'a', then Enter closes it.
    press(&mut game, Key::Char('a'));
    assert_eq!(game.game_state.current_pane, ModuleId::AutoTyperSelector);
    press(&mut game, Key::Char('a'));
    assert_eq!(game.game_state.auto_queue.auto_typer_selector.get_letter_counts('a'), 2);
    assert_eq!(game.game_state.auto_queue.auto_typer_selector.max_auto_typers, 0);
    press(&mut game, Key::Enter);
    assert_eq!(game.get_floating_pane(), None);
    assert_eq!(game.game_state.current_pane, ModuleId::Text);
}

#[test]
fn esc_closes_the_overlay_instead_of_quitting() {
    let mut game = Game::new(0);
    game.add_floating_pane(ModuleId::AutoTyperSelector);
    game.add_floating_pane(ModuleId::AutoTyperSelector);
    assert_eq!(game.floating_pane_queue.len(), 1);
    press(&mut game, Key::Esc);
    assert!(!game.should_quit);
    assert!(game.floating_pane_queue.is_empty());
    assert_eq!(game.game_state.current_pane, ModuleId::Text);
}

#[test]
fn clicks_focus_the_pane_under_the_pointer() {
    let mut game = Game::new(0);
    game.pane_rects.text = Rect::new(0, 0, 10, 5);
    game.pane_rects.upgrade = Rect::new(0, 5, 10, 5);
    game.handle_mouse_click(3, 7);
    assert_eq!(game.game_state.current_pane, ModuleId::Upgrade);
    assert_eq!((game.game_state.window_x, game.game_state.window_y), (0, 1));
    game.handle_mouse_click(9, 4);
    assert_eq!(game.game_state.current_pane, ModuleId::Text);
    // Outside every pane nothing changes.
    game.handle_mouse_click(10, 4);
    assert_eq!(game.game_state.current_pane, ModuleId::Text);
    // The letter machine's area counts only once it is shown.
    game.pane_rects.auto_keys = Some(Rect::new(20, 0, 10, 10));
    game.handle_mouse_click(25, 2);
    assert_eq!(game.game_state.current_pane, ModuleId::Text);
    game.game_state.automation_unlocked = true;
    game.handle_mouse_click(25, 2);
    assert_eq!(game.game_state.current_pane, ModuleId::AutoQueue);
}

#[test]
fn rect_contains_stops_at_its_edges() {
    let r = Rect::new(2, 3, 4, 5);
    assert!(r.contains(2, 3));
    assert!(r.contains(5, 7));
    assert!(!r.contains(6, 7));
    assert!(!r.contains(5, 8));
    assert!(!r.contains(1, 3));
    let edge = Rect::new(65530, 0, 100, 1);
    assert!(edge.contains(65534, 0));
    assert!(!edge.contains(65535, 0));
}

#[test]
fn trust_rises_to_the_maximum_and_drops_to_zero() {
    assert_eq!(next_trust_level(0, true), 1);
    assert_eq!(next_trust_level(99, true), 100);
    assert_eq!(next_trust_level(100, true), 100);
    assert_eq!(next_trust_level(5, false), 0);
    assert_eq!(next_trust_level(-2, false), -2);
    assert_eq!(next_trust_level(-2, true), -1);
}

#[test]
fn profit_buckets_move_on_every_five_seconds() {
    let mut game = Game::new(1000);
    assert!(!game.handle_tracking(5999));
    assert_eq!(game.game_state.second_profit_bucket_head, 0);
    assert!(game.handle_tracking(6000));
    assert_eq!(game.game_state.second_profit_bucket_head, 1);
    assert_eq!(game.last_profit_time, 6000);
    game.game_state.second_profit_bucket_head = 30;
    assert!(game.handle_tracking(11000));
    assert_eq!(game.game_state.second_profit_bucket_head, 0);
    // A clock that went back does not move the buckets.
    assert!(!game.handle_tracking(10));
}

#[test]
fn ticks_run_the_letter_machine_only_when_it_is_shown() {
    let library = TextLibrary::from_texts("w", "Intro line", "a b");
    let mut game = Game::new(0);
    let out = game.update(10, &library);
    assert!(out.typed.is_none());
    assert!(!out.bucket_rotated);

    let mut game = Game::new_with_test_mode(Some(TestMode::single(AppModule::AutoQueue)), 0);
    assert!(game.game_state.auto_queue.ready_to_update(10, &library));
    let out = game.update(10, &library);
    assert_eq!(out.typed, Some(String::new()));
}

#[test]
fn layout_context_follows_the_shown_panes() {
    let game = Game::new(0);
    let ctx = LayoutContext::from_game(&game);
    assert!(ctx.text_active && ctx.upgrade_active);
    assert!(!ctx.auto_active && !ctx.graph_active);
    assert_eq!(ctx.active_pane_count(), 2);
    assert!(ctx.has_main_column());
    assert!(!ctx.has_side_neighbors(ModuleId::Text));
    assert!(ctx.has_side_neighbors(ModuleId::Graph));
}

#[test]
fn upgrade_keys_are_the_two_rows_of_the_keyboard() {
    assert_eq!(UPGRADE_KEYS, ['q', 'w', 'e', 'r', 't', 'a', 's', 'd', 'f', 'g']);
}

#[test]
fn keys_that_would_overflow_a_counter_are_told_apart() {
    let mut game = Game::new(0);
    game.game_state.automation_unlocked = true;
    game.navigate(Key::Right, false);
    assert_eq!(game.game_state.current_pane, ModuleId::AutoQueue);
    game.game_state.auto_queue.letter_counts.insert('a', u32::MAX);
    assert!(!game.input_fits(Key::Char('A'), &all(true), &all(true)));
    assert!(game.input_fits(Key::Char('b'), &all(true), &all(true)));
    assert!(game.input_fits(Key::Enter, &all(true), &all(true)));

    let mut game = Game::new(0);
    game.navigate(Key::Tab, false);
    game.game_state.seniority_level = u8::MAX;
    let mut unlocked = all(false);
    unlocked[UpgradeId::Seniority.index()] = true;
    assert!(!game.input_fits(Key::Char('q'), &unlocked, &all(true)));
    assert!(game.input_fits(Key::Char('q'), &unlocked, &all(false)));
    assert!(game.input_fits(Key::Char('w'), &unlocked, &all(true)));
}

#[test]
fn some_unlocks_need_an_earlier_upgrade() {
    let mut game = Game::new(0);
    assert!(!game.upgrade_unlocked(UpgradeId::LetterCompression, true));
    assert!(!game.upgrade_unlocked(UpgradeId::AutoLetterCount, true));
    assert!(game.upgrade_unlocked(UpgradeId::Graphs, true));
    assert!(!game.upgrade_unlocked(UpgradeId::Graphs, false));
    game.game_state.capital_letter_bonus_unlocked = true;
    game.game_state.automation_unlocked = true;
    assert!(game.upgrade_unlocked(UpgradeId::LetterCompression, true));
    assert!(game.upgrade_unlocked(UpgradeId::AutoLetterCount, true));
    assert!(!game.upgrade_unlocked(UpgradeId::AutoLetterCount, false));
}
