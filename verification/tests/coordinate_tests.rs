use pattern_space::coordinate::split_coordinate;
use pattern_space::conversation::Role;
use pattern_space::conversation::Turn;
use pattern_space::conversation::render_transcript;

#[test]
fn split_single_segment() {
    assert_eq!(split_coordinate("Forest"), vec![String::from("Forest")]);
}

#[test]
fn split_two_segments() {
    assert_eq!(
        split_coordinate("Forest.Creativity"),
        vec![String::from("Forest"), String::from("Creativity")],
    );
}

#[test]
fn split_preserves_case_and_whitespace() {
    assert_eq!(
        split_coordinate(" FoReSt . sky "),
        vec![String::from(" FoReSt "), String::from(" sky ")],
    );
}

#[test]
fn split_empty_string_is_one_empty_segment() {
    assert_eq!(split_coordinate(""), vec![String::from("")]);
}

#[test]
fn split_keeps_empty_segments_between_dots() {
    assert_eq!(
        split_coordinate(".a..b."),
        vec![
            String::from(""),
            String::from("a"),
            String::from(""),
            String::from("b"),
            String::from(""),
        ],
    );
}

#[test]
fn transcript_preserves_order_and_role_labels() {
    let turns = vec![
        Turn { role: Role::Pattern, content: String::from("x") },
        Turn { role: Role::Human, content: String::from("y") },
    ];
    assert_eq!(render_transcript("Forest", &turns), "\nForest: x\nHuman: y");
}

#[test]
fn transcript_of_empty_history_is_empty() {
    let turns: Vec<Turn> = Vec::new();
    assert_eq!(render_transcript("Forest", &turns), "");
}

#[test]
fn transcript_keeps_duplicate_turns() {
    let turns = vec![
        Turn { role: Role::Human, content: String::from("same") },
        Turn { role: Role::Human, content: String::from("same") },
    ];
    assert_eq!(render_transcript("Sky", &turns), "\nHuman: same\nHuman: same");
}
