//! Keyword-driven question answering.
//!
//! A question is lowercased and run through three independent rule chains
//! over the same normalized text: one picks the answer text, one the related
//! topics, one the suggested experiments. Each chain is first-match-wins,
//! and the chains deliberately do not share predicates one-for-one (the
//! related-topics chain tests "slit", the answer chain does not).

use vstd::prelude::*;
use vstd::string::StringExecFns;

use crate::text::contains_str;
use crate::text::contains_substring;
use crate::text::lower_of;
use crate::text::lowercase;

verus! {

pub struct AskQuestionRequest {
    pub question: String,
    /// Current simulation, parameters, etc.; not consulted by the matcher.
    pub context: Option<String>,
}

pub struct AskQuestionResponse {
    pub answer: String,
    pub related_topics: Vec<String>,
    pub suggested_experiments: Vec<SuggestedExperiment>,
}

pub struct SuggestedExperiment {
    pub simulation_id: String,
    pub title: String,
    pub description: String,
}

pub const INTERFERENCE_ANSWER: &'static str = r#"**Interference** occurs when two or more waves overlap, resulting in a new wave pattern.

In the double-slit experiment:
- When waves are in phase (crests align), they create **constructive interference** (bright bands)
- When waves are out of phase (crest meets trough), they create **destructive interference** (dark bands)

The spacing of the interference pattern depends on:
- Wavelength of light (λ)
- Distance between slits (d)
- Distance to the screen (L)

Try adjusting the wavelength slider to see how the pattern changes!"#;

pub const DUALITY_ANSWER: &'static str = r#"**Wave-particle duality** is one of the most fundamental concepts in quantum mechanics.

It means that quantum objects (like electrons, photons) exhibit both wave-like and particle-like properties:

1. **As waves**: They can interfere, diffract, and create patterns
2. **As particles**: They hit detectors at specific points

The key insight: **observation matters**! When we try to determine which slit a particle passes through, the interference pattern disappears.

This is demonstrated beautifully in the double-slit experiment. Try turning on "Observer Mode" to see the difference!"#;

pub const TUNNELING_ANSWER: &'static str = r#"**Quantum tunneling** is a phenomenon where a particle can pass through a potential barrier even if its energy is less than the barrier height.

Classically, this is impossible - imagine a ball rolling toward a hill without enough energy to go over it.

In quantum mechanics, the particle's wave function extends beyond the barrier, giving a non-zero probability of finding the particle on the other side.

**Key factors affecting tunneling probability:**
- Barrier height (higher = less tunneling)
- Barrier width (wider = less tunneling)
- Particle mass (heavier = less tunneling)
- Particle energy (higher = more tunneling)

Try the Quantum Tunneling simulation to explore these relationships!"#;

pub const ORBITAL_ANSWER: &'static str = r#"**Atomic orbitals** are regions of space where electrons are most likely to be found.

In the hydrogen atom:
- **s orbitals**: Spherical, can hold 2 electrons
- **p orbitals**: Dumbbell-shaped, can hold 6 electrons  
- **d orbitals**: More complex shapes, can hold 10 electrons

The shapes are determined by the wave function solutions to the Schrödinger equation.

Each orbital is characterized by quantum numbers:
- n (principal): energy level
- l (angular momentum): shape
- m (magnetic): orientation

Explore the Hydrogen Atom simulation to see these orbitals in 3D!"#;

pub const DEFAULT_ANSWER_PREFIX: &'static str = r#"That's a great question about physics! 

Based on your question: ""#;

pub const DEFAULT_ANSWER_SUFFIX: &'static str = r#""

I'd recommend exploring the relevant simulation to build intuition. You can:
1. Adjust parameters and observe changes
2. Read the theory section for mathematical details
3. Ask more specific questions about what you observe

What aspect would you like to explore further?"#;

pub const TOPIC_WAVE_PARTICLE_DUALITY: &'static str = "Wave-particle duality";
pub const TOPIC_SUPERPOSITION: &'static str = "Quantum superposition";
pub const TOPIC_COLLAPSE: &'static str = "Wave function collapse";
pub const TOPIC_UNCERTAINTY: &'static str = "Heisenberg uncertainty principle";
pub const TOPIC_BARRIERS: &'static str = "Potential barriers";
pub const TOPIC_SCHROEDINGER: &'static str = "Schrödinger equation";
pub const TOPIC_ALPHA_DECAY: &'static str = "Alpha decay";
pub const TOPIC_STM: &'static str = "Scanning tunneling microscope";
pub const TOPIC_QUANTUM_NUMBERS: &'static str = "Quantum numbers";
pub const TOPIC_ELECTRON_CONFIGURATION: &'static str = "Electron configuration";
pub const TOPIC_SPECTRAL_LINES: &'static str = "Spectral lines";
pub const TOPIC_BOHR_MODEL: &'static str = "Bohr model";
pub const TOPIC_QM_BASICS: &'static str = "Quantum mechanics basics";
pub const TOPIC_WAVE_FUNCTION: &'static str = "Wave function";
pub const TOPIC_PROBABILITY: &'static str = "Probability in quantum physics";

pub const DOUBLE_SLIT_ID: &'static str = "double-slit";
pub const EXPERIMENT_WAVELENGTH_TITLE: &'static str = "Vary the wavelength";
pub const EXPERIMENT_WAVELENGTH_DESCRIPTION: &'static str = "Change the wavelength from 400nm to 700nm and observe how the interference pattern spacing changes";
pub const EXPERIMENT_OBSERVER_TITLE: &'static str = "Toggle observer mode";
pub const EXPERIMENT_OBSERVER_DESCRIPTION: &'static str = "Turn observer mode on and off to see the dramatic difference between wave and particle behavior";

/// The question (already lowercased) asks about interference, in either the
/// Latin or the transliterated Cyrillic spelling.
pub open spec fn asks_interference(ql: Seq<char>) -> bool {
    contains_substring(ql, "interference"@) || contains_substring(ql, "интерференц"@)
}

/// The duality rule: ("wave" and "particle") or "duality" alone. The bare
/// "duality" disjunct is deliberate: a question naming only duality matches.
pub open spec fn asks_duality(ql: Seq<char>) -> bool {
    (contains_substring(ql, "wave"@) && contains_substring(ql, "particle"@))
        || contains_substring(ql, "duality"@)
}

pub open spec fn asks_tunneling(ql: Seq<char>) -> bool {
    contains_substring(ql, "tunnel"@) || contains_substring(ql, "barrier"@)
}

/// The orbital rule: "orbital" alone, or ("electron" and "atom").
pub open spec fn asks_orbital(ql: Seq<char>) -> bool {
    contains_substring(ql, "orbital"@)
        || (contains_substring(ql, "electron"@) && contains_substring(ql, "atom"@))
}

/// The default answer embeds the verbatim (not lowercased) question text.
pub open spec fn default_answer(original: Seq<char>) -> Seq<char> {
    DEFAULT_ANSWER_PREFIX@ + original + DEFAULT_ANSWER_SUFFIX@
}

/// The answer-text rule chain, first match wins, over the lowercased
/// question `ql`; `original` is the question as the learner wrote it.
pub open spec fn answer_text_spec(ql: Seq<char>, original: Seq<char>) -> Seq<char> {
    if asks_interference(ql) {
        INTERFERENCE_ANSWER@
    } else if asks_duality(ql) {
        DUALITY_ANSWER@
    } else if asks_tunneling(ql) {
        TUNNELING_ANSWER@
    } else if asks_orbital(ql) {
        ORBITAL_ANSWER@
    } else {
        default_answer(original)
    }
}

pub open spec fn interference_topics() -> Seq<Seq<char>> {
    seq![
        TOPIC_WAVE_PARTICLE_DUALITY@,
        TOPIC_SUPERPOSITION@,
        TOPIC_COLLAPSE@,
        TOPIC_UNCERTAINTY@,
    ]
}

pub open spec fn tunneling_topics() -> Seq<Seq<char>> {
    seq![TOPIC_BARRIERS@, TOPIC_SCHROEDINGER@, TOPIC_ALPHA_DECAY@, TOPIC_STM@]
}

pub open spec fn orbital_topics() -> Seq<Seq<char>> {
    seq![
        TOPIC_QUANTUM_NUMBERS@,
        TOPIC_ELECTRON_CONFIGURATION@,
        TOPIC_SPECTRAL_LINES@,
        TOPIC_BOHR_MODEL@,
    ]
}

pub open spec fn default_topics() -> Seq<Seq<char>> {
    seq![TOPIC_QM_BASICS@, TOPIC_WAVE_FUNCTION@, TOPIC_PROBABILITY@]
}

/// The related-topics rule chain. It runs over the same lowercased text as
/// the answer chain but with its own predicates ("slit" is tested here,
/// "barrier" and "electron" are not).
pub open spec fn related_topics_spec(ql: Seq<char>) -> Seq<Seq<char>> {
    if contains_substring(ql, "interference"@) || contains_substring(ql, "slit"@) {
        interference_topics()
    } else if contains_substring(ql, "tunnel"@) {
        tunneling_topics()
    } else if contains_substring(ql, "orbital"@) || contains_substring(ql, "atom"@) {
        orbital_topics()
    } else {
        default_topics()
    }
}

/// The experiment-suggestion predicate: any wave-flavoured question gets the
/// two double-slit experiments.
pub open spec fn wants_experiments(ql: Seq<char>) -> bool {
    contains_substring(ql, "interference"@) || contains_substring(ql, "slit"@)
        || contains_substring(ql, "wave"@)
}

pub open spec fn is_vary_wavelength(e: SuggestedExperiment) -> bool {
    &&& e.simulation_id@ == DOUBLE_SLIT_ID@
    &&& e.title@ == EXPERIMENT_WAVELENGTH_TITLE@
    &&& e.description@ == EXPERIMENT_WAVELENGTH_DESCRIPTION@
}

pub open spec fn is_toggle_observer(e: SuggestedExperiment) -> bool {
    &&& e.simulation_id@ == DOUBLE_SLIT_ID@
    &&& e.title@ == EXPERIMENT_OBSERVER_TITLE@
    &&& e.description@ == EXPERIMENT_OBSERVER_DESCRIPTION@
}

pub open spec fn experiments_ok(es: Seq<SuggestedExperiment>, ql: Seq<char>) -> bool {
    if wants_experiments(ql) {
        es.len() == 2 && is_vary_wavelength(es[0]) && is_toggle_observer(es[1])
    } else {
        es.len() == 0
    }
}

/// The character sequences of a list of strings.
pub open spec fn views_of(ss: Seq<String>) -> Seq<Seq<char>> {
    ss.map_values(|s: String| s@)
}

/// Pick the canned explanation for a free-text question. The context is
/// accepted but not consulted.
pub fn get_physics_answer(question: &str, _context: &Option<String>) -> (r: String)
    ensures
        r@ == answer_text_spec(lower_of(question@), question@),
{
    let q = lowercase(question);

    if contains_str(q.as_str(), "interference") || contains_str(q.as_str(), "интерференц") {
        return INTERFERENCE_ANSWER.to_owned();
    }

    if contains_str(q.as_str(), "wave") && contains_str(q.as_str(), "particle")
        || contains_str(q.as_str(), "duality") {
        return DUALITY_ANSWER.to_owned();
    }

    if contains_str(q.as_str(), "tunnel") || contains_str(q.as_str(), "barrier") {
        return TUNNELING_ANSWER.to_owned();
    }

    if contains_str(q.as_str(), "orbital")
        || contains_str(q.as_str(), "electron") && contains_str(q.as_str(), "atom") {
        return ORBITAL_ANSWER.to_owned();
    }

    let mut r = DEFAULT_ANSWER_PREFIX.to_owned();
    r.append(question);
    r.append(DEFAULT_ANSWER_SUFFIX);
    r
}

/// Pick the related-topic labels for a free-text question.
pub fn get_related_topics(question: &str) -> (r: Vec<String>)
    ensures
        views_of(r@) == related_topics_spec(lower_of(question@)),
{
    let q = lowercase(question);
    let mut topics: Vec<String> = Vec::new();

    if contains_str(q.as_str(), "interference") || contains_str(q.as_str(), "slit") {
        topics.push(TOPIC_WAVE_PARTICLE_DUALITY.to_owned());
        topics.push(TOPIC_SUPERPOSITION.to_owned());
        topics.push(TOPIC_COLLAPSE.to_owned());
        topics.push(TOPIC_UNCERTAINTY.to_owned());
        proof {
            assert(views_of(topics@) =~= interference_topics());
        }
    } else if contains_str(q.as_str(), "tunnel") {
        topics.push(TOPIC_BARRIERS.to_owned());
        topics.push(TOPIC_SCHROEDINGER.to_owned());
        topics.push(TOPIC_ALPHA_DECAY.to_owned());
        topics.push(TOPIC_STM.to_owned());
        proof {
            assert(views_of(topics@) =~= tunneling_topics());
        }
    } else if contains_str(q.as_str(), "orbital") || contains_str(q.as_str(), "atom") {
        topics.push(TOPIC_QUANTUM_NUMBERS.to_owned());
        topics.push(TOPIC_ELECTRON_CONFIGURATION.to_owned());
        topics.push(TOPIC_SPECTRAL_LINES.to_owned());
        topics.push(TOPIC_BOHR_MODEL.to_owned());
        proof {
            assert(views_of(topics@) =~= orbital_topics());
        }
    } else {
        topics.push(TOPIC_QM_BASICS.to_owned());
        topics.push(TOPIC_WAVE_FUNCTION.to_owned());
        topics.push(TOPIC_PROBABILITY.to_owned());
        proof {
            assert(views_of(topics@) =~= default_topics());
        }
    }
    topics
}

/// Pick the suggested experiments for a free-text question.
pub fn get_suggested_experiments(question: &str) -> (r: Vec<SuggestedExperiment>)
    ensures
        experiments_ok(r@, lower_of(question@)),
{
    let q = lowercase(question);
    let mut experiments: Vec<SuggestedExperiment> = Vec::new();

    if contains_str(q.as_str(), "interference") || contains_str(q.as_str(), "slit")
        || contains_str(q.as_str(), "wave") {
        experiments.push(SuggestedExperiment {
            simulation_id: DOUBLE_SLIT_ID.to_owned(),
            title: EXPERIMENT_WAVELENGTH_TITLE.to_owned(),
            description: EXPERIMENT_WAVELENGTH_DESCRIPTION.to_owned(),
        });
        experiments.push(SuggestedExperiment {
            simulation_id: DOUBLE_SLIT_ID.to_owned(),
            title: EXPERIMENT_OBSERVER_TITLE.to_owned(),
            description: EXPERIMENT_OBSERVER_DESCRIPTION.to_owned(),
        });
    }
    experiments
}

/// Answer a free-text physics question: explanation text, related topics
/// and suggested experiments, all selected from the same lowercased text.
pub fn ask_question(request: AskQuestionRequest) -> (r: AskQuestionResponse)
    ensures
        r.answer@ == answer_text_spec(lower_of(request.question@), request.question@),
        views_of(r.related_topics@) == related_topics_spec(lower_of(request.question@)),
        experiments_ok(r.suggested_experiments@, lower_of(request.question@)),
{
    let answer = get_physics_answer(request.question.as_str(), &request.context);
    let related_topics = get_related_topics(request.question.as_str());
    let suggested_experiments = get_suggested_experiments(request.question.as_str());
    AskQuestionResponse { answer, related_topics, suggested_experiments }
}

/// Law: every question whose lowercased text contains "interference" gets
/// the interference explanation, and its related topics include
/// "Wave-particle duality".
pub proof fn lemma_interference_rule(ql: Seq<char>, original: Seq<char>)
    requires
        contains_substring(ql, "interference"@),
    ensures
        answer_text_spec(ql, original) == INTERFERENCE_ANSWER@,
        related_topics_spec(ql).contains(TOPIC_WAVE_PARTICLE_DUALITY@),
{
    assert(related_topics_spec(ql)[0] == TOPIC_WAVE_PARTICLE_DUALITY@);
}

/// Law: a question whose lowercased text contains "duality" gets the
/// wave-particle duality explanation even when it contains neither "wave"
/// nor "particle"; only a question that also triggers the earlier
/// interference rule (for example one containing "interference" itself)
/// escapes this.
pub proof fn lemma_bare_duality_rule(ql: Seq<char>, original: Seq<char>)
    requires
        contains_substring(ql, "duality"@),
        !asks_interference(ql),
    ensures
        answer_text_spec(ql, original) == DUALITY_ANSWER@,
{
}

/// Law: a question matching none of the keyword rules gets the default
/// answer, and that answer contains the verbatim question text.
pub proof fn lemma_default_rule(ql: Seq<char>, original: Seq<char>)
    requires
        !asks_interference(ql),
        !asks_duality(ql),
        !asks_tunneling(ql),
        !asks_orbital(ql),
    ensures
        answer_text_spec(ql, original) == default_answer(original),
        contains_substring(default_answer(original), original),
{
    let d = default_answer(original);
    let i = DEFAULT_ANSWER_PREFIX@.len() as int;
    assert(d.subrange(i, i + original.len()) =~= original);
    assert(contains_substring(d, original));
}

} // verus!
