//! Progress snapshots and achievement evaluation.
//!
//! There is no persistence: reading progress yields a fixed empty snapshot
//! for the demo identity, and saving synthesizes a fresh snapshot from the
//! single reported event. Timestamps are milliseconds since the Unix epoch;
//! scores are carried in hundredths of a point, so a score of 95.0 arrives
//! as 9500.

use vstd::prelude::*;

verus! {

/// The single fixed identity this backend serves; there is no
/// authentication collaborator wired in.
pub const DEMO_USER_ID: &'static str = "demo-user";

/// Minimum score, in hundredths of a point, for the high-score award.
pub const QUANTUM_MASTER_MIN_SCORE_CENTI: u32 = 9000;

/// `serde_json::Value` carries the opaque parameter snapshot of an event;
/// the library never looks inside it.
#[verifier::external_type_specification]
#[verifier::external_body]
pub struct ExValue(serde_json::Value);

/// A single reported learning event.
pub struct SaveProgressRequest {
    pub simulation_id: String,
    pub completed: bool,
    /// Score in hundredths of a point, when one was reported.
    pub score_centi: Option<u32>,
    pub time_spent_minutes: u32,
    /// Opaque parameter snapshot, passed through unvalidated.
    pub parameters: Option<serde_json::Value>,
}

pub struct UserProgress {
    pub user_id: String,
    pub completed_simulations: Vec<CompletedSimulation>,
    pub current_simulation: Option<CurrentSimulation>,
    pub total_time_minutes: u32,
    pub achievements: Vec<Achievement>,
    pub last_activity_ms: i64,
}

pub struct CompletedSimulation {
    pub simulation_id: String,
    pub completed_at_ms: i64,
    pub score_centi: Option<u32>,
    pub time_spent_minutes: u32,
}

pub struct CurrentSimulation {
    pub simulation_id: String,
    pub started_at_ms: i64,
    pub last_parameters: Option<serde_json::Value>,
}

pub struct Achievement {
    pub id: String,
    pub name: String,
    pub description: String,
    pub icon: String,
    pub earned_at_ms: i64,
}

/// Relies on `chrono::Utc::now` and `DateTime::timestamp_millis` for the
/// wall-clock reading; `Utc::now` panics if the system clock is set before
/// the Unix epoch, and whenever it returns, the reading is nonnegative.
#[verifier::external_body]
fn now_millis() -> (r: i64)
    ensures
        r >= 0,
{
    chrono::Utc::now().timestamp_millis()
}

/// The event carries a score at or above the high-score threshold.
pub open spec fn has_high_score(score_centi: Option<u32>) -> bool {
    match score_centi {
        Some(s) => s >= QUANTUM_MASTER_MIN_SCORE_CENTI,
        None => false,
    }
}

pub open spec fn is_first_experiment(a: Achievement, now_ms: i64) -> bool {
    &&& a.id@ == "first-experiment"@
    &&& a.name@ == "First Experiment"@
    &&& a.description@ == "Completed your first quantum physics simulation"@
    &&& a.icon@ == "🔬"@
    &&& a.earned_at_ms == now_ms
}

pub open spec fn is_quantum_master(a: Achievement, now_ms: i64) -> bool {
    &&& a.id@ == "quantum-master"@
    &&& a.name@ == "Quantum Master"@
    &&& a.description@ == "Achieved a score of 90% or higher"@
    &&& a.icon@ == "🏆"@
    &&& a.earned_at_ms == now_ms
}

/// Exactly the achievements the event earns, completion award first: the
/// completion award whenever the event is completed, and the high-score
/// award whenever a score at or above the threshold is present, with or
/// without completion.
pub open spec fn achievements_ok(
    a: Seq<Achievement>,
    completed: bool,
    score_centi: Option<u32>,
    now_ms: i64,
) -> bool {
    if completed && has_high_score(score_centi) {
        a.len() == 2 && is_first_experiment(a[0], now_ms) && is_quantum_master(a[1], now_ms)
    } else if completed {
        a.len() == 1 && is_first_experiment(a[0], now_ms)
    } else if has_high_score(score_centi) {
        a.len() == 1 && is_quantum_master(a[0], now_ms)
    } else {
        a.len() == 0
    }
}

/// The empty snapshot for the demo identity, stamped `now_ms`.
pub open spec fn default_ok(p: UserProgress, now_ms: i64) -> bool {
    &&& p.user_id@ == DEMO_USER_ID@
    &&& p.completed_simulations@.len() == 0
    &&& p.current_simulation is None
    &&& p.total_time_minutes == 0
    &&& p.achievements@.len() == 0
    &&& p.last_activity_ms == now_ms
}

/// The snapshot synthesized from the single event `e`, stamped `now_ms`:
/// a completed event yields exactly one completed record and no current
/// simulation; an in-progress event yields the reverse, carrying the opaque
/// parameters through unchanged. Never both from the same event.
pub open spec fn saved_ok(p: UserProgress, e: SaveProgressRequest, now_ms: i64) -> bool {
    &&& p.user_id@ == DEMO_USER_ID@
    &&& p.total_time_minutes == e.time_spent_minutes
    &&& p.last_activity_ms == now_ms
    &&& achievements_ok(p.achievements@, e.completed, e.score_centi, now_ms)
    &&& e.completed ==> {
        &&& p.completed_simulations@.len() == 1
        &&& p.completed_simulations@[0].simulation_id@ == e.simulation_id@
        &&& p.completed_simulations@[0].completed_at_ms == now_ms
        &&& p.completed_simulations@[0].score_centi == e.score_centi
        &&& p.completed_simulations@[0].time_spent_minutes == e.time_spent_minutes
        &&& p.current_simulation is None
    }
    &&& !e.completed ==> {
        &&& p.completed_simulations@.len() == 0
        &&& p.current_simulation matches Some(c)
        &&& c.simulation_id@ == e.simulation_id@
        &&& c.started_at_ms == now_ms
        &&& c.last_parameters == e.parameters
    }
}

/// Evaluate the achievement rules against a single event.
fn check_achievements(request: &SaveProgressRequest, now_ms: i64) -> (r: Vec<Achievement>)
    ensures
        achievements_ok(r@, request.completed, request.score_centi, now_ms),
{
    let mut achievements: Vec<Achievement> = Vec::new();

    // First simulation completed
    if request.completed {
        achievements.push(Achievement {
            id: "first-experiment".to_owned(),
            name: "First Experiment".to_owned(),
            description: "Completed your first quantum physics simulation".to_owned(),
            icon: "🔬".to_owned(),
            earned_at_ms: now_ms,
        });
    }

    // High score, independent of completion
    if let Some(score) = request.score_centi {
        if score >= QUANTUM_MASTER_MIN_SCORE_CENTI {
            achievements.push(Achievement {
                id: "quantum-master".to_owned(),
                name: "Quantum Master".to_owned(),
                description: "Achieved a score of 90% or higher".to_owned(),
                icon: "🏆".to_owned(),
                earned_at_ms: now_ms,
            });
        }
    }

    achievements
}

/// Synthesize the snapshot a single event yields, as of `now_ms`.
pub fn save_progress_at(request: SaveProgressRequest, now_ms: i64) -> (p: UserProgress)
    ensures
        saved_ok(p, request, now_ms),
{
    let achievements = check_achievements(&request, now_ms);

    let SaveProgressRequest { simulation_id, completed, score_centi, time_spent_minutes, parameters } = request;

    if completed {
        UserProgress {
            user_id: DEMO_USER_ID.to_owned(),
            completed_simulations: vec![CompletedSimulation {
                simulation_id,
                completed_at_ms: now_ms,
                score_centi,
                time_spent_minutes,
            }],
            current_simulation: None,
            total_time_minutes: time_spent_minutes,
            achievements,
            last_activity_ms: now_ms,
        }
    } else {
        UserProgress {
            user_id: DEMO_USER_ID.to_owned(),
            completed_simulations: Vec::new(),
            current_simulation: Some(CurrentSimulation {
                simulation_id,
                started_at_ms: now_ms,
                last_parameters: parameters,
            }),
            total_time_minutes: time_spent_minutes,
            achievements,
            last_activity_ms: now_ms,
        }
    }
}

/// Save a reported event: stamp it with the current wall-clock time and
/// synthesize the resulting snapshot. Everything but the timestamp is
/// pinned by `saved_ok`.
pub fn save_progress(request: SaveProgressRequest) -> (p: UserProgress)
    ensures
        saved_ok(p, request, p.last_activity_ms),
        p.last_activity_ms >= 0,
{
    let now_ms = now_millis();
    save_progress_at(request, now_ms)
}

/// The empty snapshot for the demo identity, stamped `now_ms`.
pub fn get_progress_at(now_ms: i64) -> (p: UserProgress)
    ensures
        default_ok(p, now_ms),
{
    UserProgress {
        user_id: DEMO_USER_ID.to_owned(),
        completed_simulations: Vec::new(),
        current_simulation: None,
        total_time_minutes: 0,
        achievements: Vec::new(),
        last_activity_ms: now_ms,
    }
}

/// Read progress: with no store behind it, every call yields the empty
/// snapshot for the demo identity, whatever was saved before. Only the
/// timestamp varies between calls.
pub fn get_progress() -> (p: UserProgress)
    ensures
        default_ok(p, p.last_activity_ms),
        p.last_activity_ms >= 0,
{
    let now_ms = now_millis();
    get_progress_at(now_ms)
}

/// Law: reading progress is stateless. Any two default snapshots with the
/// same timestamp agree on every field, so what `get_progress` yields does
/// not depend on what was saved before.
pub proof fn lemma_default_snapshot_unique(p1: UserProgress, p2: UserProgress, now_ms: i64)
    requires
        default_ok(p1, now_ms),
        default_ok(p2, now_ms),
    ensures
        p1.user_id@ == p2.user_id@,
        p1.completed_simulations@ == p2.completed_simulations@,
        p1.current_simulation is None && p2.current_simulation is None,
        p1.total_time_minutes == p2.total_time_minutes,
        p1.achievements@ == p2.achievements@,
        p1.last_activity_ms == p2.last_activity_ms,
{
    assert(p1.completed_simulations@ =~= p2.completed_simulations@);
    assert(p1.achievements@ =~= p2.achievements@);
}

/// Law: a snapshot synthesized from one event holds either exactly one
/// completed record and no current simulation, or no completed record and
/// a current simulation — never both.
pub proof fn lemma_snapshot_never_both(p: UserProgress, e: SaveProgressRequest, now_ms: i64)
    requires
        saved_ok(p, e, now_ms),
    ensures
        p.completed_simulations@.len() == 1 <==> p.current_simulation is None,
        p.completed_simulations@.len() == 0 <==> p.current_simulation is Some,
{
}

} // verus!
