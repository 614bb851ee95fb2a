//! The persisted high score: its record shape and the decision logic of the
//! read-or-default and conditional-update policies. The host reads and writes
//! the backing file; the policies themselves are verified here.

use vstd::prelude::*;

verus! {

broadcast use vstd::string::to_string_from_display_ensures_for_str;

/// The single persisted record: the best score seen so far and the moment it
/// was set, as an RFC 3339 timestamp string.
#[derive(Clone, Debug)]
pub struct HighScore {
    pub score: i32,
    pub timestamp: String,
}

/// The outcome of submitting a finished run's score: either it set a new
/// record, or the previous record stands and is reported.
#[derive(Clone, Copy, Debug, PartialEq, Eq, Structural)]
pub enum ScoreInfo {
    NewRecord,
    HistoryRecord(i32),
}

/// Names the file that holds the persisted record.
pub struct HighScoreManager {
    pub file_path: String,
}

/// Relies on chrono's `Utc::now` and `DateTime::to_rfc3339`: the current
/// wall-clock time rendered as an RFC 3339 timestamp string.
#[verifier::external_body]
fn now_rfc3339() -> (r: String) {
    chrono::Utc::now().to_rfc3339()
}

impl HighScoreManager {
    /// A manager over the record file at `file_path`.
    pub fn new(file_path: &str) -> (m: HighScoreManager)
        ensures
            m.file_path@ == file_path@,
    {
        HighScoreManager { file_path: file_path.to_string() }
    }
}

/// The record that stands in for an absent one: a zero score, stamped now.
pub fn default_record() -> (rec: HighScore)
    ensures
        rec.score == 0,
{
    HighScore { score: 0, timestamp: now_rfc3339() }
}

/// The lenient read policy: a record that could be read comes back as it is;
/// an absent or malformed one is replaced by the zero default rather than
/// reported as a failure.
pub fn resolve_read(raw: Option<HighScore>) -> (rec: HighScore)
    ensures
        raw is Some ==> rec == raw->0,
        raw is None ==> rec.score == 0,
{
    match raw {
        Some(rec) => rec,
        None => default_record(),
    }
}

/// The conditional-update policy: a run that strictly beats the current
/// record yields `NewRecord` together with the fresh record to persist, and
/// any other run yields the standing record's value with nothing to write.
pub fn decide_update(current_score: i32, new_score: i32) -> (d: (ScoreInfo, Option<HighScore>))
    ensures
        new_score > current_score ==> d.0 == ScoreInfo::NewRecord && d.1 is Some && d.1->0.score
            == new_score,
        new_score <= current_score ==> d.0 == ScoreInfo::HistoryRecord(current_score) && d.1
            is None,
{
    if new_score > current_score {
        (ScoreInfo::NewRecord, Some(HighScore { score: new_score, timestamp: now_rfc3339() }))
    } else {
        (ScoreInfo::HistoryRecord(current_score), None)
    }
}

} // verus!
