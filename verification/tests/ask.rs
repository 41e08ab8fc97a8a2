use physics_tutorial_api::ask::ask_question;
use physics_tutorial_api::ask::get_physics_answer;
use physics_tutorial_api::ask::get_related_topics;
use physics_tutorial_api::ask::get_suggested_experiments;
use physics_tutorial_api::ask::AskQuestionRequest;
use physics_tutorial_api::ask::DEFAULT_ANSWER_PREFIX;
use physics_tutorial_api::ask::DUALITY_ANSWER;
use physics_tutorial_api::ask::INTERFERENCE_ANSWER;
use physics_tutorial_api::ask::ORBITAL_ANSWER;
use physics_tutorial_api::ask::TUNNELING_ANSWER;

#[test]
fn interference_question_gets_interference_answer() {
    let answer = get_physics_answer("What is interference?", &None);
    assert_eq!(answer, INTERFERENCE_ANSWER);
    let topics = get_related_topics("What is interference?");
    assert_eq!(
        topics,
        vec![
            "Wave-particle duality".to_string(),
            "Quantum superposition".to_string(),
            "Wave function collapse".to_string(),
            "Heisenberg uncertainty principle".to_string(),
        ]
    );
}

#[test]
fn interference_matching_is_case_insensitive() {
    let answer = get_physics_answer("EXPLAIN INTERFERENCE PATTERNS", &None);
    assert_eq!(answer, INTERFERENCE_ANSWER);
}

#[test]
fn cyrillic_interference_spelling_matches() {
    let answer = get_physics_answer("Что такое ИНТЕРФЕРЕНЦИЯ?", &None);
    assert_eq!(answer, INTERFERENCE_ANSWER);
}

#[test]
fn bare_duality_matches_duality_rule() {
    let answer = get_physics_answer("Tell me about duality", &None);
    assert_eq!(answer, DUALITY_ANSWER);
}

#[test]
fn wave_and_particle_match_duality_rule() {
    let answer = get_physics_answer("Is light a wave or a particle?", &None);
    assert_eq!(answer, DUALITY_ANSWER);
}

#[test]
fn unmatched_question_gets_default_answer_with_verbatim_text() {
    let question = "How do magnets work?";
    let answer = get_physics_answer(question, &None);
    assert!(answer.starts_with(DEFAULT_ANSWER_PREFIX));
    assert!(answer.contains(question));
    let topics = get_related_topics(question);
    assert_eq!(
        topics,
        vec![
            "Quantum mechanics basics".to_string(),
            "Wave function".to_string(),
            "Probability in quantum physics".to_string(),
        ]
    );
    assert!(get_suggested_experiments(question).is_empty());
}

#[test]
fn slit_question_gets_default_answer_but_interference_topics() {
    let question = "What happens at each slit?";
    let answer = get_physics_answer(question, &None);
    assert!(answer.contains(question));
    let topics = get_related_topics(question);
    assert_eq!(topics[0], "Wave-particle duality");
    assert_eq!(topics.len(), 4);
    let experiments = get_suggested_experiments(question);
    assert_eq!(experiments.len(), 2);
}

#[test]
fn wave_alone_suggests_experiments_but_default_answer() {
    let question = "Show me a wave";
    let answer = get_physics_answer(question, &None);
    assert!(answer.contains(question));
    let experiments = get_suggested_experiments(question);
    assert_eq!(experiments.len(), 2);
    assert_eq!(experiments[0].simulation_id, "double-slit");
    assert_eq!(experiments[0].title, "Vary the wavelength");
    assert_eq!(experiments[1].simulation_id, "double-slit");
    assert_eq!(experiments[1].title, "Toggle observer mode");
}

#[test]
fn barrier_gets_tunneling_answer_but_default_topics() {
    let question = "What is a potential barrier?";
    let answer = get_physics_answer(question, &None);
    assert_eq!(answer, TUNNELING_ANSWER);
    let topics = get_related_topics(question);
    assert_eq!(topics[0], "Quantum mechanics basics");
}

#[test]
fn tunnel_gets_tunneling_answer_and_topics() {
    let question = "How does quantum tunneling work?";
    let answer = get_physics_answer(question, &None);
    assert_eq!(answer, TUNNELING_ANSWER);
    let topics = get_related_topics(question);
    assert_eq!(
        topics,
        vec![
            "Potential barriers".to_string(),
            "Schrödinger equation".to_string(),
            "Alpha decay".to_string(),
            "Scanning tunneling microscope".to_string(),
        ]
    );
}

#[test]
fn electron_in_atom_gets_orbital_answer() {
    let question = "Where is the electron in an atom?";
    let answer = get_physics_answer(question, &None);
    assert_eq!(answer, ORBITAL_ANSWER);
    let topics = get_related_topics(question);
    assert_eq!(
        topics,
        vec![
            "Quantum numbers".to_string(),
            "Electron configuration".to_string(),
            "Spectral lines".to_string(),
            "Bohr model".to_string(),
        ]
    );
}

#[test]
fn electron_alone_gets_default_answer() {
    let question = "What is an electron made of?";
    // "atom" occurs nowhere, so the electron half of the orbital rule is
    // not enough on its own.
    let answer = get_physics_answer(question, &None);
    assert!(answer.contains(question));
}

#[test]
fn ask_question_bundles_all_three_selections() {
    let response = ask_question(AskQuestionRequest {
        question: "Why does interference happen?".to_string(),
        context: Some("double-slit".to_string()),
    });
    assert_eq!(response.answer, INTERFERENCE_ANSWER);
    assert_eq!(response.related_topics.len(), 4);
    assert_eq!(response.suggested_experiments.len(), 2);
}
