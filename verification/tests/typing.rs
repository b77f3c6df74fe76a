use idle_game::typing::{mark_line, matching_chars, score_against, score_line, CharMark, LetterScore};

#[test]
fn matching_letters_score_and_the_rest_are_mistakes() {
    let scores = score_line("hellx", "Hello", false, false);
    let ok = LetterScore::Correct { capital: false };
    assert_eq!(scores, vec![ok, ok, ok, ok, LetterScore::Mistake]);
}

#[test]
fn lines_are_compared_in_lower_case_until_capitals_count() {
    assert_eq!(
        score_line("Hi", "Hi", false, false),
        vec![LetterScore::Mistake, LetterScore::Correct { capital: false }]
    );
    assert_eq!(
        score_line("Hi", "Hi", true, false),
        vec![LetterScore::Correct { capital: true }, LetterScore::Correct { capital: false }]
    );
    // Non-ASCII capitals are lowered too, by the Unicode rules.
    assert_eq!(score_line("é", "É", false, false), vec![LetterScore::Correct { capital: false }]);
}

#[test]
fn missing_and_extra_letters_are_mistakes_unless_penalties_are_off() {
    assert_eq!(
        score_line("abcd", "ab", true, false),
        vec![
            LetterScore::Correct { capital: false },
            LetterScore::Correct { capital: false },
            LetterScore::Mistake,
            LetterScore::Mistake
        ]
    );
    assert_eq!(score_line("", "abc", true, false).len(), 3);
    assert_eq!(score_line("", "abc", true, true), vec![]);
    assert_eq!(score_against("ax", "ab", false, true), vec![LetterScore::Correct { capital: false }]);
}

#[test]
fn matching_counts_positions_holding_the_same_letter() {
    assert_eq!(matching_chars("abcx", "abdx"), 3);
    assert_eq!(matching_chars("", "abc"), 0);
    assert_eq!(matching_chars("abcdef", "abc"), 3);
}

#[test]
fn marks_show_right_wrong_cursor_and_extra_letters() {
    let (marks, correct, checked) = mark_line("ax ", "abcd");
    assert_eq!(
        marks,
        vec![
            CharMark::Correct('a'),
            CharMark::Wrong('x'),
            CharMark::WrongSpace(' '),
            CharMark::Cursor('d')
        ]
    );
    assert_eq!(correct, 1);
    assert_eq!(checked, 4);

    let (marks, correct, checked) = mark_line("ab c", "ab");
    assert_eq!(
        marks,
        vec![
            CharMark::Correct('a'),
            CharMark::Correct('b'),
            CharMark::ExtraSpace(' '),
            CharMark::Extra('c')
        ]
    );
    assert_eq!(correct, 2);
    assert_eq!(checked, 6);

    let (marks, _, _) = mark_line("", "ab");
    assert_eq!(marks, vec![CharMark::Cursor('a'), CharMark::Pending('b')]);
}
