use idle_game::input::Key;
use idle_game::moving_target::{last_guess_text, parse_i32, status_text, visible_log, App, Game, Verdict};

fn chars(s: &str) -> Vec<char> {
    s.chars().collect()
}

#[test]
fn numbers_parse_like_str_parse() {
    assert_eq!(parse_i32(&chars("42")), Some(42));
    assert_eq!(parse_i32(&chars("+7")), Some(7));
    assert_eq!(parse_i32(&chars("-12")), Some(-12));
    assert_eq!(parse_i32(&chars("2147483647")), Some(i32::MAX));
    assert_eq!(parse_i32(&chars("-2147483648")), Some(i32::MIN));
    assert_eq!(parse_i32(&chars("2147483648")), None);
    assert_eq!(parse_i32(&chars("99999999999")), None);
    assert_eq!(parse_i32(&chars("")), None);
    assert_eq!(parse_i32(&chars("-")), None);
    assert_eq!(parse_i32(&chars("4x")), None);
    assert_eq!(parse_i32(&chars(" 4")), None);
}

#[test]
fn guesses_with_a_known_walk() {
    let mut game = Game { target: 50, prev_guess: None, won: false };
    assert_eq!(game.guess_with_walk(101, 0), Verdict::OutOfRange);
    assert_eq!(game.guess_with_walk(-1, 0), Verdict::OutOfRange);
    assert_eq!(game.guess_with_walk(40, 3), Verdict::TooLow);
    assert_eq!(game.target, 53);
    assert_eq!(game.prev_guess, Some(40));
    assert_eq!(game.guess_with_walk(40, 0), Verdict::Repeated);
    assert_eq!(game.guess_with_walk(60, -5), Verdict::TooHigh);
    assert_eq!(game.target, 48);
    assert_eq!(game.guess_with_walk(48, 0), Verdict::Won);
    assert!(game.won);

    let mut edge = Game { target: 99, prev_guess: None, won: false };
    assert_eq!(edge.guess_with_walk(100, 4), Verdict::Won);
    assert_eq!(edge.target, 100);
}

#[test]
fn random_walks_keep_the_target_in_range() {
    let mut game = Game::new();
    assert!((0..100).contains(&game.target));
    for g in [0, 100, 50, 25, 75, 10, 90] {
        let before = game.target;
        let prev = game.prev_guess;
        let message = game.guess(g);
        assert!((0..=100).contains(&game.target));
        let drift = prev.map(|p: i32| (p - g).abs()).unwrap_or(10).max(1);
        assert!((game.target - before).abs() <= drift / 2 + 1);
        assert!(!message.is_empty());
    }
    game.reset();
    assert!(!game.won);
    assert_eq!(game.prev_guess, None);
}

fn type_line(app: &mut App, line: &str) {
    for c in line.chars() {
        app.on_key(Key::Char(c));
    }
    app.on_key(Key::Enter);
}

#[test]
fn the_log_answers_each_line() {
    let mut app = App::new();
    assert_eq!(app.messages.len(), 3);
    assert_eq!(app.messages[0], "Welcome to Moving Target!");
    type_line(&mut app, "   ");
    assert_eq!(app.messages.len(), 3);
    type_line(&mut app, "abc");
    assert_eq!(app.messages[3], "Not a number: \"abc\"");
    type_line(&mut app, " 200 ");
    assert_eq!(app.messages[4], "Guess 200: Please enter a number between 0 and 100.");
    type_line(&mut app, "r");
    assert_eq!(app.messages[5], "Not a number: \"r\"");
    assert_eq!(app.input, "");

    app.game.won = true;
    type_line(&mut app, "7");
    assert_eq!(app.messages[6], "Game over — type 'r' to restart, or Esc to quit.");
    type_line(&mut app, "R");
    assert_eq!(app.messages[7], "New game started.");
    assert!(!app.game.won);
}

#[test]
fn the_log_keeps_its_last_fifty_lines() {
    let mut app = App::new();
    for _ in 0..60 {
        type_line(&mut app, "x");
    }
    assert_eq!(app.messages.len(), 50);
    assert_eq!(app.messages[49], "Not a number: \"x\"");
}

#[test]
fn keys_edit_the_line_and_esc_quits() {
    let mut app = App::new();
    app.on_key(Key::Char('1'));
    app.on_key(Key::Char('2'));
    app.on_key(Key::Backspace);
    assert_eq!(app.input, "1");
    app.on_key(Key::Tab);
    assert_eq!(app.input, "1");
    assert!(!app.should_quit);
    app.on_key(Key::Esc);
    assert!(app.should_quit);
}

#[test]
fn status_shows_the_last_guess_or_the_win() {
    let mut game = Game { target: 50, prev_guess: None, won: false };
    assert_eq!(status_text(&game), "Status: Guessing…   |   Last guess: —");
    game.prev_guess = Some(-3);
    assert_eq!(last_guess_text(&game), "-3");
    assert_eq!(status_text(&game), "Status: Guessing…   |   Last guess: -3");
    game.won = true;
    assert_eq!(status_text(&game), "Status: YOU WIN");
}

#[test]
fn the_log_box_shows_the_newest_lines_first() {
    let messages: Vec<String> = ["a", "b", "c", "d"].iter().map(|s| s.to_string()).collect();
    assert_eq!(visible_log(&messages, 4), vec!["d", "c"]);
    assert_eq!(visible_log(&messages, 10), vec!["d", "c", "b", "a"]);
    assert!(visible_log(&messages, 1).is_empty());
    assert!(visible_log(&messages, 2).is_empty());
}
