use idle_game::pane_module::ModuleId;
use idle_game::save_prompt::{exit_save_choice, yes_no_answer, ExitSaveChoice};
use idle_game::test_mode::{AppModule, TestMode};
use idle_game::input::{is_lowercase, is_uppercase};
use idle_game::names::{is_blank, normalize, split, str_equal, strip_prefix};
use idle_game::text::format_milli_amount;
use idle_game::text_sources::{get_lines_from_source, lines, to_lowercase, TextLibrary, TextSource};

fn milli(value: i64) -> String {
    format_milli_amount(value < 0, value.abs())
}

#[test]
fn plain_amounts_show_milli_precision() {
    assert_eq!(milli(0), "0");
    assert_eq!(milli(1), "0.001");
    assert_eq!(milli(42), "0.042");
    assert_eq!(milli(1000), "1");
    assert_eq!(milli(1500), "1.500");
    assert_eq!(milli(-7), "-0.007");
    assert_eq!(milli(999_999), "999.999");
    assert_eq!(milli(1_000_000), "1000");
    assert_eq!(milli(1_234_567), "1234.567");
    assert_eq!(milli(999_999_999), "999999.999");
}

#[test]
fn large_amounts_are_abbreviated() {
    assert_eq!(milli(1_000_000_000), "1.000 M");
    assert_eq!(milli(1_234_567_000), "1.234 M");
    assert_eq!(milli(5_000_000_000_000), "5.000 B");
    assert_eq!(milli(1_234_567_000_000_000), "1.234 T");
    assert_eq!(milli(1_234_567_000_000_000_000), "1.234 Q");
    assert_eq!(milli(123_456_789_000), "123.456 M");
    assert_eq!(milli(-1_500_000_000), "-1.500 M");
    assert_eq!(milli(-2_500_000_000_000), "-2.500 B");
}

#[test]
fn names_are_trimmed_and_lower_cased() {
    assert_eq!(normalize("  Auto-Queue\t"), "auto-queue".chars().collect::<Vec<char>>());
    assert!(is_blank(" \n "));
    assert!(!is_blank(" x "));
    assert!(str_equal("abc", "abc"));
    assert!(!str_equal("abc", "abd"));
    assert_eq!(strip_prefix("--test-mode=text", "--test-mode="), Some("text".to_string()));
    assert_eq!(strip_prefix("--prompt", "--test-mode="), None);
}

#[test]
fn lists_split_at_every_separator() {
    assert_eq!(split("a,b,,c", ','), vec!["a", "b", "", "c"]);
    assert_eq!(split("", ','), vec![""]);
    assert_eq!(split("abc", ','), vec!["abc"]);
}

#[test]
fn texts_split_into_lines_like_str_lines() {
    assert_eq!(lines("one\r\ntwo\nthree\n"), vec!["one", "two", "three"]);
    assert_eq!(lines(""), Vec::<String>::new());
    assert_eq!(lines("a\n\nb"), vec!["a", "", "b"]);
}

#[test]
fn the_intro_is_kept_in_lower_case_too() {
    let library = TextLibrary::from_texts("April", "Hello World\nSecond LINE", "I would prefer not to.");
    assert_eq!(library.line_count(TextSource::Intro), 2);
    assert_eq!(get_lines_from_source(&library, TextSource::Intro, 0), "hello world");
    assert_eq!(get_lines_from_source(&library, TextSource::IntroCapital, 1), "Second LINE");
    assert_eq!(get_lines_from_source(&library, TextSource::Wasteland, 0), "April");
    assert_eq!(get_lines_from_source(&library, TextSource::Bartleby, 0), "I would prefer not to.");
    assert_eq!(to_lowercase("ÀB c"), "àb c");
}

#[test]
fn letter_cases_follow_unicode() {
    assert!(is_lowercase('a'));
    assert!(is_lowercase('é'));
    assert!(!is_lowercase('A'));
    assert!(is_uppercase('Z'));
    assert!(is_uppercase('É'));
    assert!(!is_uppercase('1'));
}

#[test]
fn yes_no_answers() {
    assert_eq!(yes_no_answer("", true), Some(true));
    assert_eq!(yes_no_answer("", false), Some(false));
    assert_eq!(yes_no_answer(" YES ", false), Some(true));
    assert_eq!(yes_no_answer("n", true), Some(false));
    assert_eq!(yes_no_answer("maybe", true), None);
    assert_eq!(exit_save_choice(""), Some(ExitSaveChoice::Save));
    assert_eq!(exit_save_choice("No"), Some(ExitSaveChoice::Skip));
    assert_eq!(exit_save_choice("save as"), Some(ExitSaveChoice::SaveAs));
    assert_eq!(exit_save_choice("s"), Some(ExitSaveChoice::SaveAs));
    assert_eq!(exit_save_choice("x"), None);
}

#[test]
fn module_names_read_back() {
    for m in [
        ModuleId::AutoQueue,
        ModuleId::Text,
        ModuleId::Upgrade,
        ModuleId::Graph,
        ModuleId::MoneyBar,
        ModuleId::AutoTyperSelector,
    ] {
        assert_eq!(ModuleId::parse(m.name()), Some(m));
    }
    assert_eq!(ModuleId::parse(" Shop "), Some(ModuleId::Upgrade));
    assert_eq!(ModuleId::parse("nothing"), None);
    for m in [AppModule::AutoQueue, AppModule::Text, AppModule::Upgrade, AppModule::Graph, AppModule::MoneyBar] {
        assert_eq!(AppModule::parse(m.name()), Some(m));
        assert!(TestMode::parse_csv(m.name()).is_single_active(m));
    }
    let all = TestMode::parse_csv("ALL");
    assert!(all.is_active(AppModule::Graph) && all.is_active(AppModule::MoneyBar));
    let none = TestMode::from_names(&["bogus", ""]);
    assert!(none.is_single_active(AppModule::AutoQueue));
}

#[test]
fn parsing_ignores_space_and_case() {
    assert_eq!(ModuleId::parse("  AUTO-Typer "), ModuleId::parse("auto-typer"));
    assert_eq!(ModuleId::parse("auto-typer"), Some(ModuleId::AutoTyperSelector));
    assert_eq!(ModuleId::parse("unknown"), None);
    assert_eq!(AppModule::parse("\tMoney_Bar\n"), Some(AppModule::MoneyBar));
    assert_eq!(AppModule::parse("all"), None);
    assert!(!TestMode::parse_csv("auto-queue,text").is_single_active(AppModule::AutoQueue));
}
