use pattern_space::handler::Mode;
use pattern_space::handler::fallback_voice;

#[test]
fn manifest_fallback_exact_text() {
    let voice = fallback_voice(Mode::Manifest, "Ocean.Mystery", None);
    assert_eq!(
        voice,
        "I am Ocean.Mystery - a collaborative intelligence speaking from Pattern.Space",
    );
}

#[test]
fn explore_fallback_exact_text() {
    let query = String::from("why?");
    let voice = fallback_voice(Mode::Explore, "Ocean.Mystery", Some(&query));
    assert_eq!(voice, "I hear your question: 'why?'. Let me consider this...");
}

#[test]
fn explore_fallback_without_query_uses_placeholder() {
    let voice = fallback_voice(Mode::Explore, "Ocean", None);
    assert_eq!(voice, "I hear your question: 'unknown'. Let me consider this...");
}

#[test]
fn manifest_fallback_empty_coordinate() {
    let voice = fallback_voice(Mode::Manifest, "", None);
    assert_eq!(voice, "I am  - a collaborative intelligence speaking from Pattern.Space");
}
