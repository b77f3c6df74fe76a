use idle_game::auto_queue::SorterPhase;
use idle_game::letter_counts::LetterCounts;
use idle_game::auto_queue::{idx_to_letter, AutoQueue};
use idle_game::auto_typer_selector::AutoTyperSelector;
use idle_game::input::Key;
use idle_game::text_sources::TextLibrary;

#[test]
fn letters_count_from_a() {
    assert_eq!(idx_to_letter(0), 'a');
    assert_eq!(idx_to_letter(25), 'z');
    assert_eq!(idx_to_letter(26), '{');
}

#[test]
fn typed_keys_count_for_their_lower_case_letter_up_to_the_maximum() {
    let mut queue = AutoQueue::new(0);
    queue.handle_input(Key::Char('A'));
    queue.handle_input(Key::Char('a'));
    assert_eq!(queue.get_letter_counts('a'), 2);
    queue.handle_input(Key::Enter);
    assert_eq!(queue.get_letter_counts('a'), 2);
    queue.increment_letter_count('b', 998);
    queue.handle_input(Key::Char('b'));
    queue.handle_input(Key::Char('b'));
    assert_eq!(queue.get_letter_counts('b'), 999);
    assert_eq!(AutoQueue::pane_width(), 58);
}

#[test]
fn auto_typers_type_every_two_seconds() {
    let library = TextLibrary::from_texts("", "", "ab");
    let mut queue = AutoQueue::new(0);
    queue.auto_typer_selector.max_auto_typers = 3;
    queue.auto_typer_selector.handle_input(Key::Char('q'));
    queue.auto_typer_selector.handle_input(Key::Char('q'));
    assert!(queue.ready_to_update(1999, &library));
    queue.update(1999, &library);
    assert_eq!(queue.get_letter_counts('q'), 0);
    queue.update(2000, &library);
    assert_eq!(queue.get_letter_counts('q'), 2);
}

#[test]
fn the_sorter_needs_a_line_that_fits() {
    let long_line = "x".repeat(41);
    let library = TextLibrary::from_texts("", "", &long_line);
    let queue = AutoQueue::new(0);
    assert!(!queue.ready_to_update(0, &library));
    let empty = TextLibrary::from_texts("", "", "");
    assert!(!queue.ready_to_update(0, &empty));
}

#[test]
fn selector_moves_typers_between_free_and_letters() {
    let mut selector = AutoTyperSelector::new();
    assert!(selector.handle_input(Key::Enter));
    selector.max_auto_typers = 2;
    assert!(!selector.handle_input(Key::Enter));
    selector.handle_input(Key::Char('k'));
    assert_eq!(selector.get_letter_counts('k'), 1);
    assert_eq!(selector.max_auto_typers, 1);
    selector.handle_input(Key::Char('K'));
    assert_eq!(selector.get_letter_counts('k'), 0);
    assert_eq!(selector.max_auto_typers, 2);
    // Nothing to take back.
    selector.handle_input(Key::Char('K'));
    assert_eq!(selector.max_auto_typers, 2);
    selector.handle_input(Key::Char('k'));
    selector.handle_input(Key::Char('k'));
    selector.handle_input(Key::Char('k'));
    assert_eq!(selector.get_letter_counts('k'), 2);
    assert_eq!(selector.max_auto_typers, 0);
    assert!(selector.handle_input(Key::Enter));
}

#[test]
fn a_sorting_cycle_puts_each_letter_in_its_row() {
    let library = TextLibrary::from_texts("", "", "bad cab!");
    let mut queue = AutoQueue::new(0);
    queue.run_sorter(0, &library);
    assert_eq!(queue.phase, SorterPhase::Sorting);
    assert_eq!(queue.auto_current_line, 1);
    for step in 1..=26u64 {
        queue.run_sorter(step * 100, &library);
    }
    assert_eq!(queue.phase, SorterPhase::Queueing);
    assert_eq!(queue.line_num, 25);
    let cell = |i: usize, j: usize| queue.letter_queue[i * 26 + j];
    assert_eq!(cell(0, 1), 'b');
    assert_eq!(cell(1, 0), 'a');
    assert_eq!(cell(2, 3), 'd');
    assert_eq!(cell(4, 2), 'c');
    assert_eq!(cell(7, 25), '!');
    assert_eq!(cell(0, 0), ' ');
    let letters = queue.letter_queue.iter().filter(|&&c| c != ' ').count();
    assert_eq!(letters, 7);
}

#[test]
fn a_sorter_move_waits_for_its_delay() {
    let library = TextLibrary::from_texts("", "", "ab");
    let mut queue = AutoQueue::new(0);
    queue.run_sorter(0, &library);
    queue.run_sorter(99, &library);
    assert_eq!(queue.line_num, 0);
    queue.run_sorter(100, &library);
    assert_eq!(queue.line_num, 1);
    assert_eq!(queue.phase, SorterPhase::Sorting);
}

#[test]
fn counts_are_equal_whatever_order_they_were_set_in() {
    let mut a = LetterCounts::new();
    a.insert('x', 1);
    a.insert('y', 2);
    let mut b = LetterCounts::new();
    b.insert('y', 2);
    b.insert('x', 1);
    assert_eq!(a, b);
    b.insert('x', 3);
    assert_ne!(a, b);
    let mut c = LetterCounts::new();
    c.insert('x', 1);
    assert_ne!(a, c);
    assert_ne!(c, a);
}
