//! The ledger of session, day, month and all-time aggregates.
//!
//! A session row holds the latest absolute figures that the caller reported
//! for the session. Day and month rows accumulate the change of those figures
//! from one report to the next. The all-time total is the sum of the current
//! cost of every session ever seen.

use crate::config::DatabaseConfig;
use crate::error::StatuslineError;
use crate::string_map::{keys_below, StringMap};
use crate::text::{push_range, str_eq, string_of, to_chars};
use crate::utils::{iso8601_seconds, parse_iso8601_to_unix, span_between, duration_between};
use vstd::prelude::*;
use vstd::string::*;

verus! {

/// The number of characters of a date that name its month: `2025-08` of
/// `2025-08-25`.
pub const MONTH_KEY_LENGTH: usize = 7;

/// A session row, as the contracts see it.
pub struct SessionView {
    pub session_id: Seq<char>,
    pub cost: u64,
    pub lines_added: u64,
    pub lines_removed: u64,
    pub start_time: Seq<char>,
    pub last_updated: Seq<char>,
    pub max_tokens_seen: Option<u64>,
}

/// A day or month row, as the contracts see it.
pub struct PeriodView {
    pub total_cost: int,
    pub total_lines_added: int,
    pub total_lines_removed: int,
    pub sessions: Set<Seq<char>>,
}

/// The ledger, as the contracts see it.
pub struct LedgerView {
    /// The live session rows, in the order in which the sessions were first
    /// seen.
    pub sessions: Seq<SessionView>,
    /// The day rows, by date.
    pub daily: Map<Seq<char>, PeriodView>,
    /// The month rows, by month.
    pub monthly: Map<Seq<char>, PeriodView>,
    /// The all-time total cost.
    pub total_cost: int,
    /// The number of sessions ever seen.
    pub session_count: int,
    /// The part of the total that belongs to session rows that were pruned.
    pub pruned_cost: int,
    /// The number of session rows that were pruned.
    pub pruned_sessions: int,
}

/// One report of the caller.
pub struct ReportView {
    pub session_id: Seq<char>,
    pub cost: u64,
    pub lines_added: u64,
    pub lines_removed: u64,
    /// The calendar date of the report.
    pub date: Seq<char>,
    /// The moment of the report.
    pub timestamp: Seq<char>,
    /// The total token count of the transcript, where it is known.
    pub tokens: Option<u64>,
}

/// The month of a date: its first seven characters.
pub open spec fn month_of(date: Seq<char>) -> Seq<char> {
    if date.len() <= MONTH_KEY_LENGTH {
        date
    } else {
        date.take(MONTH_KEY_LENGTH as int)
    }
}

/// The index of the first row at or after `from` that belongs to the
/// session, or the number of rows where there is none.
pub open spec fn row_index(sessions: Seq<SessionView>, id: Seq<char>, from: int) -> int
    decreases sessions.len() - from,
{
    if from < 0 || from >= sessions.len() {
        sessions.len() as int
    } else if sessions[from].session_id == id {
        from
    } else {
        row_index(sessions, id, from + 1)
    }
}

/// The row of a session, if the ledger holds one.
pub open spec fn row_of(sessions: Seq<SessionView>, id: Seq<char>) -> Option<SessionView> {
    let at = row_index(sessions, id, 0);
    if at < sessions.len() {
        Some(sessions[at])
    } else {
        None
    }
}

/// No two rows belong to the same session.
pub open spec fn distinct_sessions(sessions: Seq<SessionView>) -> bool {
    forall|i: int, j: int|
        0 <= i < j < sessions.len() ==> sessions[i].session_id != sessions[j].session_id
}

/// The sum of the costs of the rows.
pub open spec fn sum_of_costs(sessions: Seq<SessionView>) -> int
    decreases sessions.len(),
{
    if sessions.len() == 0 {
        0
    } else {
        sum_of_costs(sessions.drop_last()) + sessions.last().cost
    }
}

/// The row of a period that has none yet.
pub open spec fn empty_period() -> PeriodView {
    PeriodView {
        total_cost: 0,
        total_lines_added: 0,
        total_lines_removed: 0,
        sessions: Set::empty(),
    }
}

/// The row of a period, the empty one where the ledger holds none.
pub open spec fn period_at(rows: Map<Seq<char>, PeriodView>, key: Seq<char>) -> PeriodView {
    if rows.contains_key(key) {
        rows[key]
    } else {
        empty_period()
    }
}

/// The higher of the highest count seen so far and the current one.
pub open spec fn high_water(seen: Option<u64>, current: Option<u64>) -> Option<u64> {
    match (seen, current) {
        (Some(a), Some(b)) => Some(if a >= b { a } else { b }),
        (Some(a), None) => Some(a),
        (None, b) => b,
    }
}

/// The row of a session after a report: the reported figures replace the
/// stored ones, the start stays, the high-water mark rises.
pub open spec fn reported_row(before: Option<SessionView>, report: ReportView) -> SessionView {
    SessionView {
        session_id: report.session_id,
        cost: report.cost,
        lines_added: report.lines_added,
        lines_removed: report.lines_removed,
        start_time: match before {
            Some(row) => row.start_time,
            None => report.timestamp,
        },
        last_updated: report.timestamp,
        max_tokens_seen: high_water(
            match before {
                Some(row) => row.max_tokens_seen,
                None => None,
            },
            report.tokens,
        ),
    }
}

/// By how much a report changes the cost of its session.
pub open spec fn cost_delta(before: Option<SessionView>, report: ReportView) -> int {
    match before {
        Some(row) => report.cost - row.cost,
        None => report.cost as int,
    }
}

/// By how much a report changes the added lines of its session.
pub open spec fn added_delta(before: Option<SessionView>, report: ReportView) -> int {
    match before {
        Some(row) => report.lines_added - row.lines_added,
        None => report.lines_added as int,
    }
}

/// By how much a report changes the removed lines of its session.
pub open spec fn removed_delta(before: Option<SessionView>, report: ReportView) -> int {
    match before {
        Some(row) => report.lines_removed - row.lines_removed,
        None => report.lines_removed as int,
    }
}

/// A period row after a report: the changes are added to its totals and the
/// session joins its sessions.
pub open spec fn bumped(period: PeriodView, before: Option<SessionView>, report: ReportView) -> PeriodView {
    PeriodView {
        total_cost: period.total_cost + cost_delta(before, report),
        total_lines_added: period.total_lines_added + added_delta(before, report),
        total_lines_removed: period.total_lines_removed + removed_delta(before, report),
        sessions: period.sessions.insert(report.session_id),
    }
}

/// The ledger after a report.
pub open spec fn recorded(ledger: LedgerView, report: ReportView) -> LedgerView {
    let at = row_index(ledger.sessions, report.session_id, 0);
    let before = row_of(ledger.sessions, report.session_id);
    let month = month_of(report.date);
    LedgerView {
        sessions: if at < ledger.sessions.len() {
            ledger.sessions.update(at, reported_row(before, report))
        } else {
            ledger.sessions.push(reported_row(before, report))
        },
        daily: ledger.daily.insert(
            report.date,
            bumped(period_at(ledger.daily, report.date), before, report),
        ),
        monthly: ledger.monthly.insert(
            month,
            bumped(period_at(ledger.monthly, month), before, report),
        ),
        total_cost: ledger.total_cost + cost_delta(before, report),
        session_count: if before is None {
            ledger.session_count + 1
        } else {
            ledger.session_count
        },
        pruned_cost: ledger.pruned_cost,
        pruned_sessions: ledger.pruned_sessions,
    }
}

/// The ledger after a run of reports, in order.
pub open spec fn recorded_all(ledger: LedgerView, reports: Seq<ReportView>) -> LedgerView
    decreases reports.len(),
{
    if reports.len() == 0 {
        ledger
    } else {
        recorded(recorded_all(ledger, reports.drop_last()), reports.last())
    }
}

/// The ledger that has seen nothing.
pub open spec fn empty_ledger() -> LedgerView {
    LedgerView {
        sessions: Seq::empty(),
        daily: Map::empty(),
        monthly: Map::empty(),
        total_cost: 0,
        session_count: 0,
        pruned_cost: 0,
        pruned_sessions: 0,
    }
}

impl LedgerView {
    /// The ledger is consistent: no session has two rows; the all-time total
    /// is the sum of the current costs of the live rows and of what the
    /// pruned rows held; the session count is the number of live and pruned
    /// rows.
    pub open spec fn wf(self) -> bool {
        &&& distinct_sessions(self.sessions)
        &&& self.total_cost == sum_of_costs(self.sessions) + self.pruned_cost
        &&& self.session_count == self.sessions.len() + self.pruned_sessions
        &&& self.pruned_cost >= 0
        &&& self.pruned_sessions >= 0
    }
}

/// A row index that is found points at the first row of the session; none is
/// found exactly where no row belongs to it.
pub proof fn lemma_row_index(sessions: Seq<SessionView>, id: Seq<char>, from: int)
    requires
        0 <= from <= sessions.len(),
    ensures
        from <= row_index(sessions, id, from) <= sessions.len(),
        row_index(sessions, id, from) < sessions.len() ==> sessions[row_index(
            sessions,
            id,
            from,
        )].session_id == id,
        forall|k: int|
            from <= k < row_index(sessions, id, from) ==> (#[trigger] sessions[k]).session_id != id,
    decreases sessions.len() - from,
{
    if from < sessions.len() && sessions[from].session_id != id {
        lemma_row_index(sessions, id, from + 1);
    }
}

/// Among distinct rows, the row of a session is found at its index.
pub proof fn lemma_row_found(sessions: Seq<SessionView>, at: int)
    requires
        distinct_sessions(sessions),
        0 <= at < sessions.len(),
    ensures
        row_index(sessions, sessions[at].session_id, 0) == at,
{
    let id = sessions[at].session_id;
    lemma_row_index(sessions, id, 0);
    let found = row_index(sessions, id, 0);
    if found < at {
    } else if found > at {
        assert(sessions[at].session_id != id);
    }
}

/// A new cost in one row changes the sum by the difference.
pub proof fn lemma_sum_after_update(sessions: Seq<SessionView>, at: int, row: SessionView)
    requires
        0 <= at < sessions.len(),
    ensures
        sum_of_costs(sessions.update(at, row)) == sum_of_costs(sessions) - sessions[at].cost
            + row.cost,
    decreases sessions.len(),
{
    let updated = sessions.update(at, row);
    if at == sessions.len() - 1 {
        assert(updated.drop_last() =~= sessions.drop_last());
    } else {
        lemma_sum_after_update(sessions.drop_last(), at, row);
        assert(updated.drop_last() =~= sessions.drop_last().update(at, row));
    }
}

/// The cost of a row is part of the sum.
pub proof fn lemma_sum_bounds(sessions: Seq<SessionView>, at: int)
    requires
        0 <= at < sessions.len(),
    ensures
        0 <= sessions[at].cost <= sum_of_costs(sessions),
        sum_of_costs(sessions) <= sessions.len() * u64::MAX,
    decreases sessions.len(),
{
    lemma_sum_range(sessions);
    if at < sessions.len() - 1 {
        lemma_sum_bounds(sessions.drop_last(), at);
    } else {
        lemma_sum_range(sessions.drop_last());
    }
}

/// The sum of the costs is not negative and at most the largest cost for
/// every row.
pub proof fn lemma_sum_range(sessions: Seq<SessionView>)
    ensures
        0 <= sum_of_costs(sessions) <= sessions.len() * u64::MAX,
    decreases sessions.len(),
{
    if sessions.len() > 0 {
        lemma_sum_range(sessions.drop_last());
        assert(sessions.drop_last().len() * u64::MAX + u64::MAX == sessions.len() * u64::MAX)
            by (nonlinear_arith)
            requires
                sessions.drop_last().len() + 1 == sessions.len(),
        ;
    }
}

/// A report keeps a consistent ledger consistent.
pub proof fn lemma_recorded_keeps_wf(ledger: LedgerView, report: ReportView)
    requires
        ledger.wf(),
    ensures
        recorded(ledger, report).wf(),
{
    let at = row_index(ledger.sessions, report.session_id, 0);
    let before = row_of(ledger.sessions, report.session_id);
    let row = reported_row(before, report);
    let after = recorded(ledger, report);
    lemma_row_index(ledger.sessions, report.session_id, 0);
    if at < ledger.sessions.len() {
        lemma_sum_after_update(ledger.sessions, at, row);
        assert forall|i: int, j: int| 0 <= i < j < after.sessions.len() implies after.sessions[i].session_id
            != after.sessions[j].session_id by {
            assert(after.sessions[i].session_id == ledger.sessions[i].session_id);
            assert(after.sessions[j].session_id == ledger.sessions[j].session_id);
        }
    } else {
        assert(after.sessions.drop_last() =~= ledger.sessions);
        assert forall|i: int, j: int| 0 <= i < j < after.sessions.len() implies after.sessions[i].session_id
            != after.sessions[j].session_id by {
            if j == ledger.sessions.len() {
                assert(ledger.sessions[i].session_id != report.session_id);
            }
        }
    }
}

/// After a report the row of its session holds the reported figures, and the
/// rows of all other sessions are as before.
pub proof fn lemma_recorded_rows(ledger: LedgerView, report: ReportView, other: Seq<char>)
    requires
        ledger.wf(),
    ensures
        row_of(recorded(ledger, report).sessions, report.session_id) == Some(
            reported_row(row_of(ledger.sessions, report.session_id), report),
        ),
        other != report.session_id ==> row_of(recorded(ledger, report).sessions, other) == row_of(
            ledger.sessions,
            other,
        ),
{
    let id = report.session_id;
    let at = row_index(ledger.sessions, id, 0);
    let after = recorded(ledger, report);
    lemma_recorded_keeps_wf(ledger, report);
    lemma_row_index(ledger.sessions, id, 0);
    let place = if at < ledger.sessions.len() {
        at
    } else {
        ledger.sessions.len() as int
    };
    assert(after.sessions[place].session_id == id);
    lemma_row_found(after.sessions, place);
    if other != id {
        lemma_row_index(ledger.sessions, other, 0);
        lemma_row_index(after.sessions, other, 0);
        let was = row_index(ledger.sessions, other, 0);
        let now = row_index(after.sessions, other, 0);
        if was < ledger.sessions.len() {
            assert(after.sessions[was] == ledger.sessions[was]);
            lemma_row_found(after.sessions, was);
        } else {
            if now < after.sessions.len() {
                if now < ledger.sessions.len() {
                    assert(after.sessions[now].session_id == ledger.sessions[now].session_id);
                }
            }
        }
    }
}

/// The cost that the ledger holds for a session, nothing where it holds no
/// row.
pub open spec fn stored_cost(ledger: LedgerView, id: Seq<char>) -> int {
    match row_of(ledger.sessions, id) {
        Some(row) => row.cost as int,
        None => 0,
    }
}

/// Whether every report of a run belongs to the session.
pub open spec fn all_of_session(reports: Seq<ReportView>, id: Seq<char>) -> bool {
    forall|i: int| 0 <= i < reports.len() ==> (#[trigger] reports[i]).session_id == id
}

/// Whether every report of a run was made on the date.
pub open spec fn all_on_date(reports: Seq<ReportView>, date: Seq<char>) -> bool {
    forall|i: int| 0 <= i < reports.len() ==> (#[trigger] reports[i]).date == date
}

/// Whether a report of the run was made on the date.
pub open spec fn touches_date(reports: Seq<ReportView>, date: Seq<char>) -> bool {
    exists|i: int| 0 <= i < reports.len() && (#[trigger] reports[i]).date == date
}

/// Whether a report of the run was made in the month.
pub open spec fn touches_month(reports: Seq<ReportView>, month: Seq<char>) -> bool {
    exists|i: int| 0 <= i < reports.len() && month_of((#[trigger] reports[i]).date) == month
}

/// A report changes the totals of its day and of its month by the change of
/// the session's figures, and leaves every other day and month as it was.
pub proof fn lemma_periods_accumulate_deltas(ledger: LedgerView, report: ReportView)
    ensures
        ({
            let before = row_of(ledger.sessions, report.session_id);
            let after = recorded(ledger, report);
            let month = month_of(report.date);
            &&& period_at(after.daily, report.date) == bumped(
                period_at(ledger.daily, report.date),
                before,
                report,
            )
            &&& period_at(after.monthly, month) == bumped(
                period_at(ledger.monthly, month),
                before,
                report,
            )
            &&& forall|day: Seq<char>|
                day != report.date ==> period_at(after.daily, day) == period_at(ledger.daily, day)
            &&& forall|other: Seq<char>|
                other != month ==> period_at(after.monthly, other) == period_at(
                    ledger.monthly,
                    other,
                )
        }),
{
}

/// What holds after a run of reports of one session.
proof fn lemma_replay(ledger: LedgerView, reports: Seq<ReportView>, id: Seq<char>)
    requires
        ledger.wf(),
        reports.len() > 0,
        all_of_session(reports, id),
    ensures
        ({
            let after = recorded_all(ledger, reports);
            let last = reports.last();
            &&& after.wf()
            &&& row_of(after.sessions, id) == Some(
                reported_row(
                    row_of(recorded_all(ledger, reports.drop_last()).sessions, id),
                    last,
                ),
            )
            &&& after.total_cost == ledger.total_cost - stored_cost(ledger, id) + last.cost
            &&& after.session_count == ledger.session_count + if row_of(ledger.sessions, id)
                is None {
                1int
            } else {
                0int
            }
            &&& forall|other: Seq<char>|
                other != id ==> row_of(after.sessions, other) == row_of(ledger.sessions, other)
            &&& forall|day: Seq<char>|
                period_at(after.daily, day).sessions == if touches_date(reports, day) {
                    period_at(ledger.daily, day).sessions.insert(id)
                } else {
                    period_at(ledger.daily, day).sessions
                }
            &&& forall|month: Seq<char>|
                period_at(after.monthly, month).sessions == if touches_month(reports, month) {
                    period_at(ledger.monthly, month).sessions.insert(id)
                } else {
                    period_at(ledger.monthly, month).sessions
                }
        }),
    decreases reports.len(),
{
    let earlier = reports.drop_last();
    let last = reports.last();
    let middle = recorded_all(ledger, earlier);
    let after = recorded_all(ledger, reports);
    assert(last.session_id == id);
    if earlier.len() == 0 {
        assert(middle == ledger);
    } else {
        assert(all_of_session(earlier, id)) by {
            assert forall|i: int| 0 <= i < earlier.len() implies (#[trigger] earlier[i]).session_id
                == id by {
                assert(earlier[i] == reports[i]);
            }
        }
        lemma_replay(ledger, earlier, id);
    }
    lemma_recorded_keeps_wf(middle, last);
    lemma_recorded_rows(middle, last, id);
    lemma_periods_accumulate_deltas(middle, last);
    assert forall|other: Seq<char>| other != id implies row_of(after.sessions, other) == row_of(
        ledger.sessions,
        other,
    ) by {
        lemma_recorded_rows(middle, last, other);
    }
    assert forall|day: Seq<char>|
        period_at(after.daily, day).sessions == if touches_date(reports, day) {
            period_at(ledger.daily, day).sessions.insert(id)
        } else {
            period_at(ledger.daily, day).sessions
        } by {
        let was = period_at(ledger.daily, day).sessions;
        if touches_date(earlier, day) {
            let i = choose|i: int| 0 <= i < earlier.len() && (#[trigger] earlier[i]).date == day;
            assert(reports[i].date == day);
        }
        if day == last.date {
            assert(reports[reports.len() - 1].date == day);
            assert(was.insert(id).insert(id) =~= was.insert(id));
        } else if touches_date(reports, day) {
            let i = choose|i: int| 0 <= i < reports.len() && (#[trigger] reports[i]).date == day;
            assert(earlier[i].date == day);
        }
    }
    assert forall|month: Seq<char>|
        period_at(after.monthly, month).sessions == if touches_month(reports, month) {
            period_at(ledger.monthly, month).sessions.insert(id)
        } else {
            period_at(ledger.monthly, month).sessions
        } by {
        let was = period_at(ledger.monthly, month).sessions;
        if touches_month(earlier, month) {
            let i = choose|i: int|
                0 <= i < earlier.len() && month_of((#[trigger] earlier[i]).date) == month;
            assert(month_of(reports[i].date) == month);
        }
        if month == month_of(last.date) {
            assert(month_of(reports[reports.len() - 1].date) == month);
            assert(was.insert(id).insert(id) =~= was.insert(id));
        } else if touches_month(reports, month) {
            let i = choose|i: int|
                0 <= i < reports.len() && month_of((#[trigger] reports[i]).date) == month;
            assert(month_of(earlier[i].date) == month);
        }
    }
}

/// Replaying a session replaces its figures. After any run of reports of one
/// session, the row of the session holds the cost and the line counts of the
/// last report, not a sum over the reports; the all-time total has changed by
/// the difference between the last cost and the cost stored before the run;
/// and the rows of all other sessions are as before.
pub proof fn lemma_replay_replaces(ledger: LedgerView, reports: Seq<ReportView>, id: Seq<char>)
    requires
        ledger.wf(),
        reports.len() > 0,
        all_of_session(reports, id),
    ensures
        ({
            let after = recorded_all(ledger, reports);
            let last = reports.last();
            &&& row_of(after.sessions, id) matches Some(row) && row.cost == last.cost
                && row.lines_added == last.lines_added && row.lines_removed == last.lines_removed
            &&& after.total_cost == ledger.total_cost - stored_cost(ledger, id) + last.cost
            &&& forall|other: Seq<char>|
                other != id ==> row_of(after.sessions, other) == row_of(ledger.sessions, other)
        }),
{
    lemma_replay(ledger, reports, id);
}

/// On a ledger that has seen nothing, any run of reports of one session
/// leaves the all-time total at the cost of the last report and the session
/// count at one.
pub proof fn lemma_single_session_total(reports: Seq<ReportView>, id: Seq<char>)
    requires
        reports.len() > 0,
        all_of_session(reports, id),
    ensures
        recorded_all(empty_ledger(), reports).total_cost == reports.last().cost,
        recorded_all(empty_ledger(), reports).session_count == 1,
{
    assert(sum_of_costs(empty_ledger().sessions) == 0);
    lemma_replay(empty_ledger(), reports, id);
}

/// The total of a day follows the changes of a session, not its absolute
/// figures: after any run of reports of one session, all made on one date,
/// the totals of that date have changed by the difference between the last
/// report and what the ledger stored for the session before the run. The
/// same holds of the month of the date.
pub proof fn lemma_same_day_replay(
    ledger: LedgerView,
    reports: Seq<ReportView>,
    id: Seq<char>,
    date: Seq<char>,
)
    requires
        ledger.wf(),
        reports.len() > 0,
        all_of_session(reports, id),
        all_on_date(reports, date),
    ensures
        ({
            let after = recorded_all(ledger, reports);
            let before = row_of(ledger.sessions, id);
            let last = reports.last();
            &&& period_at(after.daily, date).total_cost == period_at(ledger.daily, date).total_cost
                + cost_delta(before, last)
            &&& period_at(after.daily, date).total_lines_added == period_at(
                ledger.daily,
                date,
            ).total_lines_added + added_delta(before, last)
            &&& period_at(after.daily, date).total_lines_removed == period_at(
                ledger.daily,
                date,
            ).total_lines_removed + removed_delta(before, last)
            &&& period_at(after.monthly, month_of(date)).total_cost == period_at(
                ledger.monthly,
                month_of(date),
            ).total_cost + cost_delta(before, last)
        }),
    decreases reports.len(),
{
    let earlier = reports.drop_last();
    let last = reports.last();
    let middle = recorded_all(ledger, earlier);
    assert(last.session_id == id && last.date == date);
    lemma_periods_accumulate_deltas(middle, last);
    if earlier.len() == 0 {
        assert(middle == ledger);
    } else {
        assert(all_of_session(earlier, id) && all_on_date(earlier, date)) by {
            assert forall|i: int| 0 <= i < earlier.len() implies (#[trigger] earlier[i]).session_id
                == id && earlier[i].date == date by {
                assert(earlier[i] == reports[i]);
            }
        }
        lemma_same_day_replay(ledger, earlier, id, date);
        lemma_replay(ledger, earlier, id);
    }
}

/// A session is counted once, however many days it touches. After any run
/// of reports of one session that the ledger had not seen, the session count
/// has grown by one; the session is among the sessions of exactly the days
/// and the months on which a report was made, besides those that listed it
/// before.
pub proof fn lemma_session_counted_once(ledger: LedgerView, reports: Seq<ReportView>, id: Seq<char>)
    requires
        ledger.wf(),
        reports.len() > 0,
        all_of_session(reports, id),
        row_of(ledger.sessions, id) is None,
    ensures
        ({
            let after = recorded_all(ledger, reports);
            &&& after.session_count == ledger.session_count + 1
            &&& forall|day: Seq<char>|
                period_at(after.daily, day).sessions.contains(id) <==> touches_date(reports, day)
                    || period_at(ledger.daily, day).sessions.contains(id)
            &&& forall|month: Seq<char>|
                period_at(after.monthly, month).sessions.contains(id) <==> touches_month(
                    reports,
                    month,
                ) || period_at(ledger.monthly, month).sessions.contains(id)
        }),
{
    lemma_replay(ledger, reports, id);
}

/// A session row: the latest absolute figures reported for the session.
/// Money is counted in millionths of a dollar.
#[derive(Debug, Clone)]
pub struct SessionStats {
    pub session_id: String,
    pub cost: u64,
    pub lines_added: u64,
    pub lines_removed: u64,
    /// The moment of the first report.
    pub start_time: String,
    /// The moment of the latest report.
    pub last_updated: String,
    /// The highest token count reported.
    pub max_tokens_seen: Option<u64>,
}

/// A day or month row: the accumulated changes of the sessions that
/// reported in the period, and those sessions.
#[derive(Debug, Clone)]
pub struct PeriodStats {
    pub total_cost: i128,
    pub total_lines_added: i128,
    pub total_lines_removed: i128,
    pub session_ids: Vec<String>,
}

/// A day row.
pub type DailyStats = PeriodStats;

/// A month row.
pub type MonthlyStats = PeriodStats;

/// The all-time aggregates.
#[derive(Debug, Clone, Copy, PartialEq, Eq, Structural)]
pub struct AllTimeStats {
    /// The sum of the current cost of every session ever seen.
    pub total_cost: u128,
    /// The number of sessions ever seen.
    pub session_count: u64,
}

/// The ledger.
#[derive(Debug, Clone)]
pub struct StatsData {
    sessions: Vec<SessionStats>,
    daily: StringMap<PeriodStats>,
    monthly: StringMap<PeriodStats>,
    all_time: AllTimeStats,
    pruned_cost: u128,
    pruned_sessions: u64,
}

impl View for SessionStats {
    type V = SessionView;

    open spec fn view(&self) -> SessionView {
        SessionView {
            session_id: self.session_id@,
            cost: self.cost,
            lines_added: self.lines_added,
            lines_removed: self.lines_removed,
            start_time: self.start_time@,
            last_updated: self.last_updated@,
            max_tokens_seen: self.max_tokens_seen,
        }
    }
}

/// The sessions that a list of identifiers names.
pub open spec fn named_sessions(ids: Seq<String>) -> Set<Seq<char>> {
    Set::new(|id: Seq<char>| exists|i: int| 0 <= i < ids.len() && (#[trigger] ids[i])@ == id)
}

impl View for PeriodStats {
    type V = PeriodView;

    open spec fn view(&self) -> PeriodView {
        PeriodView {
            total_cost: self.total_cost as int,
            total_lines_added: self.total_lines_added as int,
            total_lines_removed: self.total_lines_removed as int,
            sessions: named_sessions(self.session_ids@),
        }
    }
}

/// The rows of a list of sessions, as the contracts see them.
pub open spec fn session_views(rows: Seq<SessionStats>) -> Seq<SessionView> {
    rows.map_values(|row: SessionStats| row@)
}

/// The rows of the periods, as the contracts see them.
pub open spec fn period_views(rows: Map<Seq<char>, PeriodStats>) -> Map<Seq<char>, PeriodView> {
    Map::new(|key: Seq<char>| rows.contains_key(key), |key: Seq<char>| rows[key]@)
}

/// Whether the totals of a period row can be stored.
pub open spec fn period_fits(period: PeriodView) -> bool {
    &&& i128::MIN <= period.total_cost <= i128::MAX
    &&& i128::MIN <= period.total_lines_added <= i128::MAX
    &&& i128::MIN <= period.total_lines_removed <= i128::MAX
}

/// Whether the ledger can store what a report leads to: every amount stays
/// within the range of its field.
pub open spec fn fits(ledger: LedgerView, report: ReportView) -> bool {
    let after = recorded(ledger, report);
    &&& period_fits(period_at(after.daily, report.date))
    &&& period_fits(period_at(after.monthly, month_of(report.date)))
    &&& after.total_cost <= u128::MAX
    &&& after.session_count <= u64::MAX
}

/// The month of a date.
pub fn month_key(date: &str) -> (month: String)
    ensures
        month@ == month_of(date@),
{
    let chars = to_chars(date);
    if chars.len() <= MONTH_KEY_LENGTH {
        return date.to_owned();
    }
    let mut month = String::new();
    push_range(&mut month, &chars, 0, MONTH_KEY_LENGTH);
    assert(month@ =~= date@.take(MONTH_KEY_LENGTH as int));
    month
}

/// The higher of the highest count seen so far and the current one.
pub fn raise_high_water(seen: Option<u64>, current: Option<u64>) -> (r: Option<u64>)
    ensures
        r == high_water(seen, current),
{
    match (seen, current) {
        (Some(a), Some(b)) => Some(if a >= b { a } else { b }),
        (Some(a), None) => Some(a),
        (None, b) => b,
    }
}

/// Whether the list names the session.
fn names_session(ids: &Vec<String>, id: &str) -> (r: bool)
    ensures
        r == named_sessions(ids@).contains(id@),
{
    let mut i: usize = 0;
    while i < ids.len()
        invariant
            i <= ids.len(),
            forall|j: int| 0 <= j < i ==> (#[trigger] ids@[j])@ != id@,
        decreases ids.len() - i,
    {
        if str_eq(ids[i].as_str(), id) {
            return true;
        }
        i += 1;
    }
    false
}

/// A copy of the list with the session in it.
fn with_session(ids: &Vec<String>, id: &str) -> (r: Vec<String>)
    ensures
        named_sessions(r@) == named_sessions(ids@).insert(id@),
{
    let mut copy: Vec<String> = Vec::new();
    let mut i: usize = 0;
    while i < ids.len()
        invariant
            i <= ids.len(),
            copy@ == ids@.take(i as int),
        decreases ids.len() - i,
    {
        copy.push(ids[i].clone());
        i += 1;
        assert(copy@ =~= ids@.take(i as int));
    }
    assert(ids@.take(ids@.len() as int) =~= ids@);
    if !names_session(ids, id) {
        let owned = id.to_owned();
        copy.push(owned);
        assert(named_sessions(copy@) =~= named_sessions(ids@).insert(id@)) by {
            let grown = copy@;
            assert forall|x: Seq<char>| named_sessions(grown).contains(x) == named_sessions(
                ids@,
            ).insert(id@).contains(x) by {
                if named_sessions(ids@).contains(x) {
                    let i = choose|i: int| 0 <= i < ids@.len() && (#[trigger] ids@[i])@ == x;
                    assert(grown[i]@ == x);
                }
                if x == id@ {
                    assert(grown[grown.len() - 1]@ == x);
                }
                if named_sessions(grown).contains(x) {
                    let i = choose|i: int| 0 <= i < grown.len() && (#[trigger] grown[i])@ == x;
                    if i < ids@.len() {
                        assert(ids@[i]@ == x);
                    }
                }
            }
        }
    } else {
        assert(named_sessions(ids@).insert(id@) =~= named_sessions(ids@));
    }
    copy
}

/// The view of an optional period row, the empty one for none.
pub open spec fn period_or_empty(row: Option<&PeriodStats>) -> PeriodView {
    match row {
        Some(period) => period@,
        None => empty_period(),
    }
}

/// A period row with the changes added and the session listed; `None` where
/// a total leaves its range.
fn bump_period(row: Option<&PeriodStats>, cost: i128, added: i128, removed: i128, id: &str) -> (r:
    Option<PeriodStats>)
    ensures
        ({
            let was = period_or_empty(row);
            let now = PeriodView {
                total_cost: was.total_cost + cost,
                total_lines_added: was.total_lines_added + added,
                total_lines_removed: was.total_lines_removed + removed,
                sessions: was.sessions.insert(id@),
            };
            match r {
                Some(period) => period@ == now,
                None => !period_fits(now),
            }
        }),
{
    let (old_cost, old_added, old_removed): (i128, i128, i128) = match row {
        Some(period) => (period.total_cost, period.total_lines_added, period.total_lines_removed),
        None => (0, 0, 0),
    };
    let total_cost = match old_cost.checked_add(cost) {
        Some(total) => total,
        None => {
            return None;
        },
    };
    let total_lines_added = match old_added.checked_add(added) {
        Some(total) => total,
        None => {
            return None;
        },
    };
    let total_lines_removed = match old_removed.checked_add(removed) {
        Some(total) => total,
        None => {
            return None;
        },
    };
    let session_ids = match row {
        Some(period) => with_session(&period.session_ids, id),
        None => {
            let mut ids: Vec<String> = Vec::new();
            ids.push(id.to_owned());
            assert(named_sessions(ids@) =~= Set::<Seq<char>>::empty().insert(id@)) by {
                assert(ids@[0]@ == id@);
            }
            ids
        },
    };
    Some(PeriodStats { total_cost, total_lines_added, total_lines_removed, session_ids })
}

/// The error for an amount that would leave the range of its field.
fn overflow_error() -> (e: StatuslineError)
    ensures
        e is Database,
        e.message_view() == "ledger amount out of range"@,
{
    StatuslineError::Database(String::from_str("ledger amount out of range"))
}

/// The error for stored rows that hold a session twice.
fn duplicate_error() -> (e: StatuslineError)
    ensures
        e is Database,
        e.message_view() == "two rows for one session"@,
{
    StatuslineError::Database(String::from_str("two rows for one session"))
}

impl View for StatsData {
    type V = LedgerView;

    closed spec fn view(&self) -> LedgerView {
        LedgerView {
            sessions: session_views(self.sessions@),
            daily: period_views(self.daily@),
            monthly: period_views(self.monthly@),
            total_cost: self.all_time.total_cost as int,
            session_count: self.all_time.session_count as int,
            pruned_cost: self.pruned_cost as int,
            pruned_sessions: self.pruned_sessions as int,
        }
    }
}

impl StatsData {
    /// The ledger is consistent, and so are its tables of day and month
    /// rows.
    pub open spec fn wf(&self) -> bool {
        self@.wf() && self.tables_wf()
    }

    /// The tables of day and month rows keep one row for each key.
    pub closed spec fn tables_wf(&self) -> bool {
        self.daily.wf() && self.monthly.wf()
    }

    /// A ledger that has seen nothing.
    pub fn new() -> (ledger: StatsData)
        ensures
            ledger@ == empty_ledger(),
            ledger.wf(),
    {
        let ledger = StatsData {
            sessions: Vec::new(),
            daily: StringMap::new(),
            monthly: StringMap::new(),
            all_time: AllTimeStats { total_cost: 0, session_count: 0 },
            pruned_cost: 0,
            pruned_sessions: 0,
        };
        proof {
            assert(ledger@.sessions =~= Seq::<SessionView>::empty());
            assert(ledger@.daily =~= Map::<Seq<char>, PeriodView>::empty());
            assert(ledger@.monthly =~= Map::<Seq<char>, PeriodView>::empty());
        }
        ledger
    }

    /// The position of the row of a session.
    fn find_row(&self, session_id: &str) -> (r: Option<usize>)
        ensures
            match r {
                Some(at) => at < self.sessions@.len() && at == row_index(
                    self@.sessions,
                    session_id@,
                    0,
                ) && self.sessions@[at as int].session_id@ == session_id@,
                None => row_index(self@.sessions, session_id@, 0) == self.sessions@.len(),
            },
            self@.sessions.len() == self.sessions@.len(),
    {
        let ghost rows = session_views(self.sessions@);
        let mut i: usize = 0;
        while i < self.sessions.len()
            invariant
                i <= self.sessions@.len(),
                rows == session_views(self.sessions@),
                row_index(rows, session_id@, 0) == row_index(rows, session_id@, i as int),
            decreases self.sessions@.len() - i,
        {
            assert(rows[i as int] == self.sessions@[i as int]@);
            if str_eq(self.sessions[i].session_id.as_str(), session_id) {
                return Some(i);
            }
            i += 1;
        }
        None
    }

    /// The row of a session, if the ledger holds one.
    pub fn session(&self, session_id: &str) -> (r: Option<&SessionStats>)
        ensures
            match r {
                Some(row) => row_of(self@.sessions, session_id@) == Some(row@),
                None => row_of(self@.sessions, session_id@) is None,
            },
    {
        match self.find_row(session_id) {
            Some(at) => {
                assert(self@.sessions[at as int] == self.sessions@[at as int]@);
                Some(&self.sessions[at])
            },
            None => None,
        }
    }

    /// The highest token count that was reported for a session.
    pub fn get_session_max_tokens(&self, session_id: &str) -> (r: Option<u64>)
        ensures
            r == match row_of(self@.sessions, session_id@) {
                Some(row) => row.max_tokens_seen,
                None => None,
            },
    {
        match self.session(session_id) {
            Some(row) => row.max_tokens_seen,
            None => None,
        }
    }

    /// The duration of a session in seconds: the time from its first report
    /// to its latest one, where both moments can be read and the latest is
    /// the later one.
    pub fn get_session_duration(&self, session_id: &str) -> (r: Option<u64>)
        ensures
            r == match row_of(self@.sessions, session_id@) {
                Some(row) => span_between(
                    iso8601_seconds(row.start_time),
                    iso8601_seconds(row.last_updated),
                ),
                None => None,
            },
    {
        match self.session(session_id) {
            Some(row) => duration_between(
                parse_iso8601_to_unix(row.start_time.as_str()),
                parse_iso8601_to_unix(row.last_updated.as_str()),
            ),
            None => None,
        }
    }

    /// The all-time aggregates.
    pub fn all_time(&self) -> (r: AllTimeStats)
        ensures
            r.total_cost == self@.total_cost,
            r.session_count == self@.session_count,
    {
        self.all_time
    }

    /// The accumulated cost of a day, nothing for a day without a row.
    pub fn get_daily_total(&self, date: &str) -> (total: i128)
        ensures
            total == period_at(self@.daily, date@).total_cost,
    {
        match self.daily.get(date) {
            Some(period) => period.total_cost,
            None => 0,
        }
    }

    /// The accumulated cost of a month, nothing for a month without a row.
    pub fn get_monthly_total(&self, month: &str) -> (total: i128)
        ensures
            total == period_at(self@.monthly, month@).total_cost,
    {
        match self.monthly.get(month) {
            Some(period) => period.total_cost,
            None => 0,
        }
    }

    /// Whether a session reported on a day.
    pub fn day_lists_session(&self, date: &str, session_id: &str) -> (r: bool)
        ensures
            r == period_at(self@.daily, date@).sessions.contains(session_id@),
    {
        match self.daily.get(date) {
            Some(period) => names_session(&period.session_ids, session_id),
            None => false,
        }
    }

    /// Whether a session reported in a month.
    pub fn month_lists_session(&self, month: &str, session_id: &str) -> (r: bool)
        ensures
            r == period_at(self@.monthly, month@).sessions.contains(session_id@),
    {
        match self.monthly.get(month) {
            Some(period) => names_session(&period.session_ids, session_id),
            None => false,
        }
    }

    /// Takes a report into the ledger. The figures of the report replace
    /// those of the session; the day and the month of the report take the
    /// change of the figures and list the session; the all-time total takes
    /// the change of the cost; a session seen for the first time raises the
    /// session count; the high-water mark of the token count rises. Where an
    /// amount would leave the range of its field, the ledger stays as it is
    /// and a `Database` error is returned.
    pub fn record(
        &mut self,
        session_id: &str,
        cost: u64,
        lines_added: u64,
        lines_removed: u64,
        date: &str,
        timestamp: &str,
        tokens: Option<u64>,
    ) -> (r: Result<(), StatuslineError>)
        requires
            old(self).wf(),
        ensures
            final(self).wf(),
            ({
                let report = ReportView {
                    session_id: session_id@,
                    cost,
                    lines_added,
                    lines_removed,
                    date: date@,
                    timestamp: timestamp@,
                    tokens,
                };
                &&& r is Ok <==> fits(old(self)@, report)
                &&& r is Ok ==> final(self)@ == recorded(old(self)@, report)
                &&& r matches Err(e) ==> final(self)@ == old(self)@ && e is Database
            }),
    {
        let ghost report = ReportView {
            session_id: session_id@,
            cost,
            lines_added,
            lines_removed,
            date: date@,
            timestamp: timestamp@,
            tokens,
        };
        let ghost before = row_of(self@.sessions, session_id@);
        let ghost ledger = self@;
        let found = self.find_row(session_id);
        let (old_cost, old_added, old_removed, seen): (u64, u64, u64, Option<u64>) = match found {
            Some(at) => {
                assert(self@.sessions[at as int] == self.sessions@[at as int]@);
                (
                    self.sessions[at].cost,
                    self.sessions[at].lines_added,
                    self.sessions[at].lines_removed,
                    self.sessions[at].max_tokens_seen,
                )
            },
            None => (0, 0, 0, None),
        };
        let cost_change: i128 = cost as i128 - old_cost as i128;
        let added_change: i128 = lines_added as i128 - old_added as i128;
        let removed_change: i128 = lines_removed as i128 - old_removed as i128;
        assert(cost_change == cost_delta(before, report));
        assert(added_change == added_delta(before, report));
        assert(removed_change == removed_delta(before, report));
        let month = month_key(date);
        proof {
            lemma_periods_accumulate_deltas(ledger, report);
            lemma_recorded_keeps_wf(ledger, report);
            if found is Some {
                lemma_sum_bounds(ledger.sessions, found->0 as int);
            }
        }
        let day_row = match bump_period(
            self.daily.get(date),
            cost_change,
            added_change,
            removed_change,
            session_id,
        ) {
            Some(row) => row,
            None => {
                return Err(overflow_error());
            },
        };
        let month_row = match bump_period(
            self.monthly.get(month.as_str()),
            cost_change,
            added_change,
            removed_change,
            session_id,
        ) {
            Some(row) => row,
            None => {
                return Err(overflow_error());
            },
        };
        let total_cost: u128 = if cost_change >= 0 {
            match self.all_time.total_cost.checked_add(cost_change as u128) {
                Some(total) => total,
                None => {
                    return Err(overflow_error());
                },
            }
        } else {
            self.all_time.total_cost - ((-cost_change) as u128)
        };
        let session_count: u64 = if found.is_none() {
            match self.all_time.session_count.checked_add(1) {
                Some(count) => count,
                None => {
                    return Err(overflow_error());
                },
            }
        } else {
            self.all_time.session_count
        };
        let start_time = match found {
            Some(at) => self.sessions[at].start_time.clone(),
            None => timestamp.to_owned(),
        };
        let row = SessionStats {
            session_id: session_id.to_owned(),
            cost,
            lines_added,
            lines_removed,
            start_time,
            last_updated: timestamp.to_owned(),
            max_tokens_seen: raise_high_water(seen, tokens),
        };
        assert(row@ == reported_row(before, report));
        match found {
            Some(at) => {
                self.sessions.set(at, row);
            },
            None => {
                self.sessions.push(row);
            },
        }
        self.daily.insert(date.to_owned(), day_row);
        self.monthly.insert(month, month_row);
        self.all_time = AllTimeStats { total_cost, session_count };
        proof {
            let after = recorded(ledger, report);
            assert(self@.sessions =~= after.sessions);
            assert(self@.daily =~= after.daily);
            assert(self@.monthly =~= after.monthly);
        }
        Ok(())
    }
}

/// The seconds of a day.
pub const SECONDS_PER_DAY: u64 = 86_400;

/// How the dates of the day rows are written.
pub const DATE_FORMAT: &'static str = "%Y-%m-%d";

/// The days that session rows are kept where the settings name none.
pub const DEFAULT_SESSION_DAYS: u32 = 90;

/// The days that day rows are kept where the settings name none.
pub const DEFAULT_DAILY_DAYS: u32 = 365;

/// The days that month rows are kept where the settings name none: for
/// ever.
pub const DEFAULT_MONTHLY_DAYS: u32 = 0;

/// The date that lies `days` days before `date`, as chrono computes it: the
/// date is read with `NaiveDate::parse_from_str` under `format` and the
/// earlier date is written year first. `None` where the date cannot be read
/// or the earlier date is out of range.
pub uninterp spec fn earlier_date(date: Seq<char>, format: Seq<char>, days: u64) -> Option<
    Seq<char>,
>;

/// Reads `date` with `chrono::NaiveDate::parse_from_str` under `format`,
/// goes back `days` days with `NaiveDate::checked_sub_days` and writes the
/// result as `NaiveDate` displays it. The result is a function of the three
/// arguments alone.
#[verifier::external_body]
fn date_days_before(date: &str, format: &str, days: u64) -> (r: Option<String>)
    ensures
        string_of(r) == earlier_date(date@, format@, days),
{
    match chrono::NaiveDate::parse_from_str(date, format) {
        Ok(day) => match day.checked_sub_days(chrono::Days::new(days)) {
            Some(earlier) => Some(earlier.to_string()),
            None => None,
        },
        Err(_) => None,
    }
}

/// Whether a session row is older than the cutoff: its latest report can be
/// read and lies before it.
pub open spec fn is_expired(row: SessionView, cutoff: u64) -> bool {
    iso8601_seconds(row.last_updated) matches Some(moment) && moment < cutoff
}

/// The rows that are not older than the cutoff, in order.
pub open spec fn live_rows(rows: Seq<SessionView>, cutoff: u64) -> Seq<SessionView>
    decreases rows.len(),
{
    if rows.len() == 0 {
        Seq::empty()
    } else if is_expired(rows.last(), cutoff) {
        live_rows(rows.drop_last(), cutoff)
    } else {
        live_rows(rows.drop_last(), cutoff).push(rows.last())
    }
}

/// The sum of the costs of the rows that are older than the cutoff.
pub open spec fn expired_cost(rows: Seq<SessionView>, cutoff: u64) -> int
    decreases rows.len(),
{
    if rows.len() == 0 {
        0
    } else if is_expired(rows.last(), cutoff) {
        expired_cost(rows.drop_last(), cutoff) + rows.last().cost
    } else {
        expired_cost(rows.drop_last(), cutoff)
    }
}

/// The number of rows that are older than the cutoff.
pub open spec fn expired_count(rows: Seq<SessionView>, cutoff: u64) -> int
    decreases rows.len(),
{
    if rows.len() == 0 {
        0
    } else if is_expired(rows.last(), cutoff) {
        expired_count(rows.drop_last(), cutoff) + 1
    } else {
        expired_count(rows.drop_last(), cutoff)
    }
}

/// The ledger without the session rows that are older than the cutoff. What
/// they held stays in the all-time aggregates.
pub open spec fn sessions_pruned(ledger: LedgerView, cutoff: u64) -> LedgerView {
    LedgerView {
        sessions: live_rows(ledger.sessions, cutoff),
        pruned_cost: ledger.pruned_cost + expired_cost(ledger.sessions, cutoff),
        pruned_sessions: ledger.pruned_sessions + expired_count(ledger.sessions, cutoff),
        ..ledger
    }
}

/// The ledger without the day rows before the cutoff date.
pub open spec fn days_pruned(ledger: LedgerView, cutoff: Seq<char>) -> LedgerView {
    LedgerView { daily: ledger.daily.remove_keys(keys_below(cutoff)), ..ledger }
}

/// The ledger without the month rows before the cutoff month.
pub open spec fn months_pruned(ledger: LedgerView, cutoff: Seq<char>) -> LedgerView {
    LedgerView { monthly: ledger.monthly.remove_keys(keys_below(cutoff)), ..ledger }
}

/// The days that rows are kept: the configured number, else the default.
pub open spec fn horizon_days(setting: Option<u32>, default_days: u32) -> u32 {
    match setting {
        Some(days) => days,
        None => default_days,
    }
}

/// The moment before which session rows are pruned; none where they are
/// kept for ever.
pub open spec fn session_cutoff(now_seconds: u64, days: u32) -> Option<u64> {
    if days == 0 {
        None
    } else if days * SECONDS_PER_DAY >= now_seconds {
        Some(0)
    } else {
        Some((now_seconds - days * SECONDS_PER_DAY) as u64)
    }
}

/// The date before which day rows are pruned; none where they are kept for
/// ever or today's date cannot be read.
pub open spec fn date_cutoff(today: Seq<char>, days: u32) -> Option<Seq<char>> {
    if days == 0 {
        None
    } else {
        earlier_date(today, DATE_FORMAT@, days as u64)
    }
}

/// The ledger after retention: session rows, day rows and month rows older
/// than their horizons are gone.
pub open spec fn retained(
    ledger: LedgerView,
    today: Seq<char>,
    now_seconds: u64,
    config: DatabaseConfig,
) -> LedgerView {
    let first = match session_cutoff(
        now_seconds,
        horizon_days(config.retention_days_sessions, DEFAULT_SESSION_DAYS),
    ) {
        Some(cutoff) => sessions_pruned(ledger, cutoff),
        None => ledger,
    };
    let second = match date_cutoff(
        today,
        horizon_days(config.retention_days_daily, DEFAULT_DAILY_DAYS),
    ) {
        Some(cutoff) => days_pruned(first, cutoff),
        None => first,
    };
    match date_cutoff(today, horizon_days(config.retention_days_monthly, DEFAULT_MONTHLY_DAYS)) {
        Some(cutoff) => months_pruned(second, month_of(cutoff)),
        None => second,
    }
}

/// Without a row the sum falls by the cost of the row.
pub proof fn lemma_sum_after_remove(rows: Seq<SessionView>, at: int)
    requires
        0 <= at < rows.len(),
    ensures
        sum_of_costs(rows.remove(at)) == sum_of_costs(rows) - rows[at].cost,
    decreases rows.len(),
{
    if at == rows.len() - 1 {
        assert(rows.remove(at) =~= rows.drop_last());
    } else {
        lemma_sum_after_remove(rows.drop_last(), at);
        assert(rows.remove(at).drop_last() =~= rows.drop_last().remove(at));
        assert(rows.remove(at).last() == rows.last());
    }
}

/// How many rows the retention took away.
#[derive(Debug, Clone, Copy, PartialEq, Eq, Structural)]
pub struct PruneSummary {
    pub sessions: usize,
    pub days: usize,
    pub months: usize,
}

impl StatsData {
    /// The session rows, in the order in which the sessions were first seen.
    pub fn sessions(&self) -> (rows: &Vec<SessionStats>)
        ensures
            session_views(rows@) == self@.sessions,
    {
        &self.sessions
    }

    /// The day rows.
    pub fn daily(&self) -> (rows: &StringMap<PeriodStats>)
        ensures
            period_views(rows@) == self@.daily,
            self.wf() ==> rows.wf(),
    {
        &self.daily
    }

    /// The month rows.
    pub fn monthly(&self) -> (rows: &StringMap<PeriodStats>)
        ensures
            period_views(rows@) == self@.monthly,
            self.wf() ==> rows.wf(),
    {
        &self.monthly
    }

    /// Drops the session rows whose latest report lies before the cutoff, a
    /// moment in seconds since the epoch, and says how many it dropped. A row
    /// whose latest report cannot be read stays. The all-time aggregates do
    /// not change.
    pub fn prune_sessions(&mut self, cutoff: u64) -> (dropped: usize)
        requires
            old(self).wf(),
        ensures
            final(self).wf(),
            final(self)@ == sessions_pruned(old(self)@, cutoff),
            dropped == expired_count(old(self)@.sessions, cutoff),
            dropped == old(self)@.sessions.len() - final(self)@.sessions.len(),
    {
        let ghost all = self@.sessions;
        let total: usize = self.sessions.len();
        let mut dropped: usize = 0;
        let mut i: usize = 0;
        let ghost mut seen: int = 0;
        assert(all.take(0) =~= Seq::<SessionView>::empty());
        assert(all.skip(0) =~= all);
        while i < self.sessions.len()
            invariant
                self.wf(),
                all == old(self)@.sessions,
                all.len() == total,
                0 <= seen <= all.len(),
                seen == i + dropped,
                i <= self.sessions@.len(),
                self@.sessions == live_rows(all.take(seen), cutoff) + all.skip(seen),
                i == live_rows(all.take(seen), cutoff).len(),
                dropped == expired_count(all.take(seen), cutoff),
                self@.pruned_cost == old(self)@.pruned_cost + expired_cost(all.take(seen), cutoff),
                self@.pruned_sessions == old(self)@.pruned_sessions + dropped,
                self@.daily == old(self)@.daily,
                self@.monthly == old(self)@.monthly,
                self@.total_cost == old(self)@.total_cost,
                self@.session_count == old(self)@.session_count,
            decreases all.len() - seen,
        {
            let ghost rows = self@.sessions;
            let ghost next = all.take(seen + 1);
            proof {
                assert(rows[i as int] == all[seen]);
                assert(rows[i as int] == self.sessions@[i as int]@);
                assert(next.drop_last() =~= all.take(seen));
                assert(next.last() == all[seen]);
            }
            let expired = match parse_iso8601_to_unix(self.sessions[i].last_updated.as_str()) {
                Some(moment) => moment < cutoff,
                None => false,
            };
            assert(expired == is_expired(all[seen], cutoff));
            if expired {
                proof {
                    lemma_sum_after_remove(rows, i as int);
                    lemma_sum_bounds(rows, i as int);
                }
                let row = self.sessions.remove(i);
                self.pruned_cost = self.pruned_cost + row.cost as u128;
                self.pruned_sessions = self.pruned_sessions + 1;
                dropped += 1;
                proof {
                    assert(self@.sessions =~= rows.remove(i as int));
                    assert(self@.sessions =~= live_rows(next, cutoff) + all.skip(seen + 1));
                    assert forall|a: int, b: int|
                        0 <= a < b < self@.sessions.len() implies self@.sessions[a].session_id
                        != self@.sessions[b].session_id by {
                        let x = if a < i { a } else { a + 1 };
                        let y = if b < i { b } else { b + 1 };
                        assert(self@.sessions[a] == rows[x]);
                        assert(self@.sessions[b] == rows[y]);
                    }
                }
            } else {
                i += 1;
                proof {
                    assert(self@.sessions =~= live_rows(next, cutoff) + all.skip(seen + 1));
                }
            }
            proof {
                seen = seen + 1;
            }
        }
        proof {
            assert(seen == all.len()) by {
                assert(self@.sessions.len() == i + (all.len() - seen));
            }
            assert(all.take(all.len() as int) =~= all);
            assert(all.skip(all.len() as int) =~= Seq::<SessionView>::empty());
            assert(self@.sessions =~= live_rows(all, cutoff));
        }
        dropped
    }

    /// Drops the day rows before the cutoff date and says how many it
    /// dropped.
    pub fn prune_days(&mut self, cutoff_date: &str) -> (dropped: usize)
        requires
            old(self).wf(),
        ensures
            final(self).wf(),
            final(self)@ == days_pruned(old(self)@, cutoff_date@),
            dropped == old(self)@.daily.len() - final(self)@.daily.len(),
    {
        let dropped = self.daily.remove_below(cutoff_date);
        assert(self@.daily =~= old(self)@.daily.remove_keys(keys_below(cutoff_date@)));
        assert(self@.daily.dom() =~= self.daily@.dom());
        assert(old(self)@.daily.dom() =~= old(self).daily@.dom());
        dropped
    }

    /// Drops the month rows before the cutoff month and says how many it
    /// dropped.
    pub fn prune_months(&mut self, cutoff_month: &str) -> (dropped: usize)
        requires
            old(self).wf(),
        ensures
            final(self).wf(),
            final(self)@ == months_pruned(old(self)@, cutoff_month@),
            dropped == old(self)@.monthly.len() - final(self)@.monthly.len(),
    {
        let dropped = self.monthly.remove_below(cutoff_month);
        assert(self@.monthly =~= old(self)@.monthly.remove_keys(keys_below(cutoff_month@)));
        assert(self@.monthly.dom() =~= self.monthly@.dom());
        assert(old(self)@.monthly.dom() =~= old(self).monthly@.dom());
        dropped
    }

    /// Applies the retention horizons of the settings: session rows whose
    /// latest report is older than the session horizon, day rows older than
    /// the day horizon and month rows older than the month horizon are
    /// dropped. A horizon of no days keeps the rows for ever. `today` is the
    /// current date, `now_seconds` the current moment in seconds since the
    /// epoch.
    pub fn apply_retention(
        &mut self,
        today: &str,
        now_seconds: u64,
        config: &DatabaseConfig,
    ) -> (summary: PruneSummary)
        requires
            old(self).wf(),
        ensures
            final(self).wf(),
            final(self)@ == retained(old(self)@, today@, now_seconds, *config),
            summary.sessions == old(self)@.sessions.len() - final(self)@.sessions.len(),
            summary.days == old(self)@.daily.len() - final(self)@.daily.len(),
            summary.months == old(self)@.monthly.len() - final(self)@.monthly.len(),
    {
        let session_days = match config.retention_days_sessions {
            Some(days) => days,
            None => DEFAULT_SESSION_DAYS,
        };
        let daily_days = match config.retention_days_daily {
            Some(days) => days,
            None => DEFAULT_DAILY_DAYS,
        };
        let monthly_days = match config.retention_days_monthly {
            Some(days) => days,
            None => DEFAULT_MONTHLY_DAYS,
        };
        let mut summary = PruneSummary { sessions: 0, days: 0, months: 0 };
        if session_days != 0 {
            let span: u64 = session_days as u64 * SECONDS_PER_DAY;
            let cutoff: u64 = if span >= now_seconds {
                0
            } else {
                now_seconds - span
            };
            summary.sessions = self.prune_sessions(cutoff);
        }
        if daily_days != 0 {
            if let Some(cutoff) = date_days_before(today, DATE_FORMAT, daily_days as u64) {
                summary.days = self.prune_days(cutoff.as_str());
            }
        }
        if monthly_days != 0 {
            if let Some(cutoff) = date_days_before(today, DATE_FORMAT, monthly_days as u64) {
                let month = month_key(cutoff.as_str());
                summary.months = self.prune_months(month.as_str());
            }
        }
        summary
    }
}

/// Whether stored rows make a consistent ledger: no session has two rows,
/// and the all-time aggregates that follow from the rows can be stored.
pub open spec fn rows_fit(rows: Seq<SessionView>, pruned_cost: u128, pruned_sessions: u64) -> bool {
    &&& distinct_sessions(rows)
    &&& sum_of_costs(rows) + pruned_cost <= u128::MAX
    &&& rows.len() + pruned_sessions <= u64::MAX
}

/// Whether the row at `at` belongs to a session that an earlier row belongs
/// to.
fn repeats_session(rows: &Vec<SessionStats>, at: usize) -> (r: bool)
    requires
        at < rows.len(),
    ensures
        r == exists|j: int|
            0 <= j < at && (#[trigger] rows@[j]).session_id@ == rows@[at as int].session_id@,
{
    let mut j: usize = 0;
    while j < at
        invariant
            j <= at < rows.len(),
            forall|k: int|
                0 <= k < j ==> (#[trigger] rows@[k]).session_id@ != rows@[at as int].session_id@,
        decreases at - j,
    {
        if str_eq(rows[j].session_id.as_str(), rows[at].session_id.as_str()) {
            return true;
        }
        j += 1;
    }
    false
}

impl StatsData {
    /// Builds the ledger from stored rows. The all-time aggregates are
    /// computed from the session rows and from what the pruned rows held.
    /// Rows that make no consistent ledger are refused with a `Database`
    /// error.
    pub fn from_rows(
        sessions: Vec<SessionStats>,
        daily: StringMap<PeriodStats>,
        monthly: StringMap<PeriodStats>,
        pruned_cost: u128,
        pruned_sessions: u64,
    ) -> (r: Result<StatsData, StatuslineError>)
        requires
            daily.wf(),
            monthly.wf(),
        ensures
            r is Ok <==> rows_fit(session_views(sessions@), pruned_cost, pruned_sessions),
            r matches Ok(ledger) ==> {
                &&& ledger.wf()
                &&& ledger@.sessions == session_views(sessions@)
                &&& ledger@.daily == period_views(daily@)
                &&& ledger@.monthly == period_views(monthly@)
                &&& ledger@.pruned_cost == pruned_cost
                &&& ledger@.pruned_sessions == pruned_sessions
            },
            r matches Err(e) ==> e is Database,
    {
        let ghost rows = session_views(sessions@);
        let mut total: u128 = pruned_cost;
        let mut i: usize = 0;
        assert(rows.take(0) =~= Seq::<SessionView>::empty());
        while i < sessions.len()
            invariant
                i <= sessions.len(),
                rows == session_views(sessions@),
                distinct_sessions(rows.take(i as int)),
                total == sum_of_costs(rows.take(i as int)) + pruned_cost,
            decreases sessions.len() - i,
        {
            let ghost next = rows.take(i + 1);
            proof {
                assert(next.drop_last() =~= rows.take(i as int));
                assert(next.last() == rows[i as int]);
                assert(rows[i as int] == sessions@[i as int]@);
                lemma_sum_range(rows.take(i as int));
                lemma_sum_prefix(rows, i + 1);
            }
            if repeats_session(&sessions, i) {
                proof {
                    let j = choose|j: int|
                        0 <= j < i && (#[trigger] sessions@[j]).session_id@
                            == sessions@[i as int].session_id@;
                    assert(rows[j].session_id == rows[i as int].session_id);
                }
                return Err(duplicate_error());
            }
            total = match total.checked_add(sessions[i].cost as u128) {
                Some(sum) => sum,
                None => {
                    return Err(overflow_error());
                },
            };
            proof {
                assert forall|a: int, b: int| 0 <= a < b < next.len() implies next[a].session_id
                    != next[b].session_id by {
                    if b == i {
                        assert(rows[a] == sessions@[a]@);
                    } else {
                        assert(rows.take(i as int)[a] == next[a]);
                        assert(rows.take(i as int)[b] == next[b]);
                    }
                }
            }
            i += 1;
        }
        assert(rows.take(rows.len() as int) =~= rows);
        let session_count: u64 = if sessions.len() as u128 + pruned_sessions as u128
            > u64::MAX as u128 {
            return Err(overflow_error());
        } else {
            (sessions.len() as u128 + pruned_sessions as u128) as u64
        };
        Ok(
            StatsData {
                sessions,
                daily,
                monthly,
                all_time: AllTimeStats { total_cost: total, session_count },
                pruned_cost,
                pruned_sessions,
            },
        )
    }
}

/// The sum over the first rows is at most the sum over all rows.
pub proof fn lemma_sum_prefix(rows: Seq<SessionView>, count: int)
    requires
        0 <= count <= rows.len(),
    ensures
        sum_of_costs(rows.take(count)) <= sum_of_costs(rows),
    decreases rows.len(),
{
    if count == rows.len() {
        assert(rows.take(count) =~= rows);
    } else {
        lemma_sum_prefix(rows.drop_last(), count);
        assert(rows.drop_last().take(count) =~= rows.take(count));
    }
}

} // verus!
