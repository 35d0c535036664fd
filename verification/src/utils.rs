//! The estimator: token extraction, window resolution, compaction detection
//! and the usage percentage, with the text helpers that the display shares.

use crate::common::{agrees, checked_path, has_null_byte, validate_path_security};
use crate::config::{is_working_mode, Config, ContextConfig};
use crate::context_learning::{confident_window, observed_once_more, ContextLearner};
use crate::error::StatuslineError;
use crate::models::{
    model_of, CompactionState, ContextUsage, ModelFamily, ModelType, ModelVersion, TokenBreakdown,
    TranscriptEntry, Usage, FULL_PERCENT,
};
use crate::text::{
    ascii_lowered, decimal, eq_ignore_ascii_case, matches_at, push_decimal, push_range,
    starts_with, str_eq, string_of, text_of, to_ascii_lower, to_chars,
};
use std::collections::VecDeque;
use vstd::prelude::*;
use vstd::string::*;

verus! {

/// A token count in thousands, rounded to the nearest thousand (a half rounds
/// up), and never below one thousand.
pub open spec fn rounded_thousands(tokens: nat) -> nat {
    let nearest = (tokens + 500) / 1000;
    if nearest < 1 {
        1
    } else {
        nearest
    }
}

/// How a token count is displayed: `0` for none, else the thousands and `k`.
pub open spec fn token_count_text(tokens: nat) -> Seq<char> {
    if tokens == 0 {
        seq!['0']
    } else {
        decimal(rounded_thousands(tokens)).push('k')
    }
}

/// Appends the display form of a token count.
pub fn push_token_count(out: &mut String, tokens: u64)
    ensures
        final(out)@ == old(out)@ + token_count_text(tokens as nat),
{
    if tokens == 0 {
        out.push('0');
        assert(out@ =~= old(out)@ + token_count_text(0));
    } else {
        let nearest: u128 = (tokens as u128 + 500) / 1000;
        let thousands: u128 = if nearest < 1 {
            1
        } else {
            nearest
        };
        push_decimal(out, thousands);
        out.push('k');
        assert(out@ =~= old(out)@ + token_count_text(tokens as nat));
    }
}

/// Formats a token count: `0` stays `0`; any other count is rounded to the
/// nearest thousand, shown as at least `1k`.
pub fn format_token_count(tokens: usize) -> (s: String)
    ensures
        s@ == token_count_text(tokens as nat),
{
    let mut s = String::new();
    push_token_count(&mut s, tokens as u64);
    s
}

/// What `Regex::replace_all` of the regex crate returns for a pattern, a text
/// and a replacement, or `None` where the pattern is not a regular expression.
pub uninterp spec fn regex_replaced(
    pattern: Seq<char>,
    text: Seq<char>,
    replacement: Seq<char>,
) -> Option<Seq<char>>;

/// Compiles `pattern` with `regex::Regex::new` and replaces every match in
/// `text` with `Regex::replace_all`. The result is a function of the three
/// texts alone; it is `None` exactly where the pattern does not compile.
#[verifier::external_body]
fn replace_all_matches(pattern: &str, text: &str, replacement: &str) -> (r: Option<String>)
    ensures
        string_of(r) == regex_replaced(pattern@, text@, replacement@),
{
    match regex::Regex::new(pattern) {
        Ok(re) => Some(re.replace_all(text, replacement).into_owned()),
        Err(_) => None,
    }
}

/// The seconds since the Unix epoch that chrono's
/// `DateTime::parse_from_rfc3339` reads from a text, or `None` where it
/// rejects the text.
pub uninterp spec fn rfc3339_seconds(text: Seq<char>) -> Option<i64>;

/// The seconds since the Unix epoch that chrono's
/// `NaiveDateTime::parse_from_str` reads from a text under a format, the
/// result taken as UTC, or `None` where it rejects the text.
pub uninterp spec fn naive_seconds(text: Seq<char>, format: Seq<char>) -> Option<i64>;

/// Parses `text` with `chrono::DateTime::parse_from_rfc3339` and takes the
/// `timestamp` of the result. The result is a function of the text alone.
#[verifier::external_body]
fn rfc3339_timestamp(text: &str) -> (r: Option<i64>)
    ensures
        r == rfc3339_seconds(text@),
{
    match chrono::DateTime::parse_from_rfc3339(text) {
        Ok(moment) => Some(moment.timestamp()),
        Err(_) => None,
    }
}

/// Parses `text` with `chrono::NaiveDateTime::parse_from_str` under `format`
/// and takes the `timestamp` of the result as UTC. The result is a function
/// of the two texts alone.
#[verifier::external_body]
fn naive_timestamp(text: &str, format: &str) -> (r: Option<i64>)
    ensures
        r == naive_seconds(text@, format@),
{
    match chrono::NaiveDateTime::parse_from_str(text, format) {
        Ok(moment) => Some(moment.and_utc().timestamp()),
        Err(_) => None,
    }
}

/// The regular expression of a colour sequence: escape, an opening bracket,
/// digits and semicolons, and the letter m.
pub const ANSI_COLOR_PATTERN: &'static str = r"\x1b\[[0-9;]*m";

/// Whether a character may reach the terminal: tab, line feed and carriage
/// return may; no other control character of the ranges 00-1F and 7F-9F may.
pub open spec fn is_terminal_safe(c: char) -> bool {
    c == '\t' || c == '\n' || c == '\r' || (c as u32 >= 0x20 && c as u32 != 0x7F && !(0x80
        <= c as u32 && c as u32 <= 0x9F))
}

/// The text without the characters that may not reach the terminal.
pub open spec fn without_controls(text: Seq<char>) -> Seq<char> {
    text.filter(|c: char| is_terminal_safe(c))
}

/// The text without colour sequences: what the regex crate leaves when it
/// replaces every match of the colour pattern by nothing. Were the pattern
/// rejected, the text would stay as it is.
pub open spec fn without_color_sequences(text: Seq<char>) -> Seq<char> {
    match regex_replaced(ANSI_COLOR_PATTERN@, text, ""@) {
        Some(stripped) => stripped,
        None => text,
    }
}

/// The text as it may be printed: colour sequences removed, then control
/// characters removed.
pub open spec fn sanitized(text: Seq<char>) -> Seq<char> {
    without_controls(without_color_sequences(text))
}

/// Whether a character may reach the terminal.
pub fn char_is_terminal_safe(c: char) -> (r: bool)
    ensures
        r == is_terminal_safe(c),
{
    let code = c as u32;
    c == '\t' || c == '\n' || c == '\r' || (code >= 0x20 && code != 0x7F && !(0x80 <= code
        && code <= 0x9F))
}

/// Removes the control characters from a text, keeping tab, line feed and
/// carriage return.
pub fn strip_control_characters(text: &str) -> (s: String)
    ensures
        s@ == without_controls(text@),
{
    let chars = to_chars(text);
    let mut s = String::new();
    let mut i: usize = 0;
    let ghost keep = |c: char| is_terminal_safe(c);
    assert(chars@.take(0).filter(keep) =~= Seq::<char>::empty()) by {
        reveal_with_fuel(Seq::filter, 1);
    }
    while i < chars.len()
        invariant
            i <= chars.len(),
            keep == (|c: char| is_terminal_safe(c)),
            s@ == chars@.take(i as int).filter(keep),
        decreases chars.len() - i,
    {
        let c = chars[i];
        proof {
            let one = seq![c];
            assert(chars@.take(i + 1) =~= chars@.take(i as int) + one);
            Seq::filter_distributes_over_add(chars@.take(i as int), one, keep);
            assert(one.filter(keep) =~= if keep(c) {
                one
            } else {
                Seq::<char>::empty()
            }) by {
                reveal_with_fuel(Seq::filter, 2);
                assert(one.drop_last() =~= Seq::<char>::empty());
            }
        }
        if char_is_terminal_safe(c) {
            s.push(c);
        }
        i += 1;
    }
    assert(chars@.take(chars@.len() as int) =~= chars@);
    s
}

/// Makes a text safe to print: colour sequences are removed first, then
/// control characters.
pub fn sanitize_for_terminal(input: &str) -> (s: String)
    ensures
        s@ == sanitized(input@),
{
    match replace_all_matches(ANSI_COLOR_PATTERN, input, "") {
        Some(stripped) => strip_control_characters(stripped.as_str()),
        None => strip_control_characters(input),
    }
}

/// Seconds since the epoch as an unsigned number; a moment before the epoch
/// wraps around, as a two's complement cast does.
pub open spec fn wrapped_seconds(seconds: i64) -> u64 {
    if seconds >= 0 {
        seconds as u64
    } else {
        (seconds + 0x1_0000_0000_0000_0000) as u64
    }
}

/// The first reading that succeeds: with an offset, without one but with a
/// fraction, without either.
pub open spec fn first_reading(
    with_offset: Option<i64>,
    with_fraction: Option<i64>,
    plain: Option<i64>,
) -> Option<u64> {
    match with_offset {
        Some(seconds) => Some(wrapped_seconds(seconds)),
        None => match with_fraction {
            Some(seconds) => Some(wrapped_seconds(seconds)),
            None => match plain {
                Some(seconds) => Some(wrapped_seconds(seconds)),
                None => None,
            },
        },
    }
}

/// How a moment without an offset is written, with a fraction of a second.
pub const FRACTION_FORMAT: &'static str = "%Y-%m-%dT%H:%M:%S%.f";

/// How a moment without an offset is written, to the second.
pub const PLAIN_FORMAT: &'static str = "%Y-%m-%dT%H:%M:%S";

/// The moment that an ISO 8601 text names, in seconds since the epoch. A
/// text with an offset is read as RFC 3339; one without is read as UTC, with
/// or without a fraction of a second.
pub open spec fn iso8601_seconds(text: Seq<char>) -> Option<u64> {
    first_reading(
        rfc3339_seconds(text),
        naive_seconds(text, FRACTION_FORMAT@),
        naive_seconds(text, PLAIN_FORMAT@),
    )
}

/// Seconds since the epoch as an unsigned number.
pub fn to_wrapped_seconds(seconds: i64) -> (r: u64)
    ensures
        r == wrapped_seconds(seconds),
{
    if seconds >= 0 {
        seconds as u64
    } else {
        (seconds as i128 + 0x1_0000_0000_0000_0000) as u64
    }
}

/// Picks the first of three readings of a timestamp that succeeded.
pub fn pick_first_reading(
    with_offset: Option<i64>,
    with_fraction: Option<i64>,
    plain: Option<i64>,
) -> (r: Option<u64>)
    ensures
        r == first_reading(with_offset, with_fraction, plain),
{
    match with_offset {
        Some(seconds) => Some(to_wrapped_seconds(seconds)),
        None => match with_fraction {
            Some(seconds) => Some(to_wrapped_seconds(seconds)),
            None => match plain {
                Some(seconds) => Some(to_wrapped_seconds(seconds)),
                None => None,
            },
        },
    }
}

/// Reads an ISO 8601 timestamp as seconds since the Unix epoch.
pub fn parse_iso8601_to_unix(timestamp: &str) -> (r: Option<u64>)
    ensures
        r == iso8601_seconds(timestamp@),
{
    let with_offset = rfc3339_timestamp(timestamp);
    if with_offset.is_some() {
        return pick_first_reading(with_offset, None, None);
    }
    let with_fraction = naive_timestamp(timestamp, FRACTION_FORMAT);
    if with_fraction.is_some() {
        return pick_first_reading(None, with_fraction, None);
    }
    let plain = naive_timestamp(timestamp, PLAIN_FORMAT);
    pick_first_reading(None, None, plain)
}

/// A path with the home directory at its start written as `~`.
pub open spec fn shortened(path: Seq<char>, home: Option<Seq<char>>) -> Seq<char> {
    match home {
        Some(h) => if path.len() > 0 && starts_with(path, h) {
            seq!['~'] + path.skip(h.len() as int)
        } else {
            path
        },
        None => path,
    }
}

/// Shortens a path for display: the home directory at its start becomes `~`.
pub fn shorten_path(path: &str, home: Option<&str>) -> (s: String)
    ensures
        s@ == shortened(path@, text_of(home)),
{
    let chars = to_chars(path);
    if chars.len() > 0 {
        if let Some(h) = home {
            let home_chars = to_chars(h);
            if matches_at(&chars, &home_chars, 0) {
                let mut s = String::new();
                s.push('~');
                push_range(&mut s, &chars, home_chars.len(), chars.len());
                assert(s@ =~= seq!['~'] + path@.skip(h@.len() as int));
                return s;
            }
        }
    }
    path.to_owned()
}

/// A file touched less than this many seconds ago was touched recently.
pub const RECENT_SECONDS: u64 = 10;

/// Whether the transcript was modified recently; an unknown age is not
/// recent.
pub open spec fn is_recent(modified_secs_ago: Option<u64>) -> bool {
    modified_secs_ago matches Some(age) && age < RECENT_SECONDS
}

/// Whether a fresh hook signal reports a compaction under way.
pub open spec fn hook_is_compacting(hook_state: Option<Seq<char>>) -> bool {
    hook_state == Some("compacting"@)
}

/// Whether the token count fell by more than half of the last known count.
pub open spec fn dropped_by_more_than_half(last_known: nat, current: nat) -> bool {
    current < last_known && 2 * (last_known - current) > last_known
}

/// The compaction state that the signals add up to. A hook signal decides
/// alone. Without a last known count the state is normal. A fall by more than
/// half is a compaction: under way while the file is still being written,
/// completed otherwise. A recent write while the last known count is more
/// than twice the current one is a compaction under way.
pub open spec fn compaction_state_of(
    hook_compacting: bool,
    last_known: Option<u64>,
    current: u64,
    recent: bool,
) -> CompactionState {
    if hook_compacting {
        CompactionState::InProgress
    } else {
        match last_known {
            None => CompactionState::Normal,
            Some(last) => if dropped_by_more_than_half(last as nat, current as nat) {
                if recent {
                    CompactionState::InProgress
                } else {
                    CompactionState::RecentlyCompleted
                }
            } else if recent && last > 2 * current {
                CompactionState::InProgress
            } else {
                CompactionState::Normal
            },
        }
    }
}

/// A last known count of more than twice the current one is a fall by more
/// than half, and the other way round: a recent write never decides alone
/// where the counts are exact.
pub proof fn lemma_twice_is_more_than_half(last_known: nat, current: nat)
    ensures
        last_known > 2 * current <==> dropped_by_more_than_half(last_known, current),
{
}

/// Classifies the compaction state from the hook signal of the session, the
/// highest token count seen before, the current count and the age of the
/// last write to the transcript.
pub fn detect_compaction_state(
    current_tokens: u64,
    hook_state: Option<&str>,
    last_known_tokens: Option<u64>,
    modified_secs_ago: Option<u64>,
) -> (state: CompactionState)
    ensures
        state == compaction_state_of(
            hook_is_compacting(text_of(hook_state)),
            last_known_tokens,
            current_tokens,
            is_recent(modified_secs_ago),
        ),
        !hook_is_compacting(text_of(hook_state)) && last_known_tokens is None ==> state
            == CompactionState::Normal,
{
    if let Some(hook) = hook_state {
        if str_eq(hook, "compacting") {
            return CompactionState::InProgress;
        }
    }
    let recent = match modified_secs_ago {
        Some(age) => age < RECENT_SECONDS,
        None => false,
    };
    match last_known_tokens {
        None => CompactionState::Normal,
        Some(last) => {
            let dropped = current_tokens < last && (last - current_tokens) as u128 * 2
                > last as u128;
            if dropped {
                if recent {
                    CompactionState::InProgress
                } else {
                    CompactionState::RecentlyCompleted
                }
            } else if recent && last as u128 > 2 * (current_tokens as u128) {
                CompactionState::InProgress
            } else {
                CompactionState::Normal
            }
        },
    }
}

/// Files below this size are read from their start.
pub const SMALL_FILE_BYTES: u64 = 1_048_576;

/// The size that a transcript line is taken to have when the tail of a large
/// file is measured out.
pub const BYTES_PER_LINE: u64 = 2048;

/// The least number of bytes that is read from the end of a large file.
pub const MIN_TAIL_BYTES: u64 = 204_800;

/// Where the reading of a transcript begins.
#[derive(Debug, Clone, Copy, PartialEq, Eq, Structural)]
pub struct TailPlan {
    /// The byte offset at which reading starts.
    pub start: u64,
    /// Whether the first line read may be cut and is to be dropped.
    pub skip_first_line: bool,
}

/// The number of bytes at the end of a large file that cover the wanted
/// lines.
pub open spec fn tail_bytes(buffer_lines: nat) -> nat {
    if buffer_lines * BYTES_PER_LINE > MIN_TAIL_BYTES {
        (buffer_lines * BYTES_PER_LINE) as nat
    } else {
        MIN_TAIL_BYTES as nat
    }
}

/// A small file is read from its start. A large file is read from the offset
/// that leaves `tail_bytes` to its end, and the line that the offset cuts is
/// dropped.
pub open spec fn tail_plan_of(file_size: u64, buffer_lines: usize) -> TailPlan {
    if file_size < SMALL_FILE_BYTES || file_size <= tail_bytes(buffer_lines as nat) {
        TailPlan { start: 0, skip_first_line: false }
    } else {
        TailPlan {
            start: (file_size - tail_bytes(buffer_lines as nat)) as u64,
            skip_first_line: true,
        }
    }
}

/// Decides where to start reading a transcript of `file_size` bytes of which
/// the last `buffer_lines` lines are wanted.
pub fn plan_tail_read(file_size: u64, buffer_lines: usize) -> (plan: TailPlan)
    ensures
        plan == tail_plan_of(file_size, buffer_lines),
{
    if file_size < SMALL_FILE_BYTES {
        return TailPlan { start: 0, skip_first_line: false };
    }
    assert(buffer_lines * BYTES_PER_LINE <= usize::MAX * 2048);
    let wanted: u128 = buffer_lines as u128 * BYTES_PER_LINE as u128;
    let tail: u128 = if wanted > MIN_TAIL_BYTES as u128 {
        wanted
    } else {
        MIN_TAIL_BYTES as u128
    };
    if file_size as u128 <= tail {
        TailPlan { start: 0, skip_first_line: false }
    } else {
        TailPlan { start: (file_size as u128 - tail) as u64, skip_first_line: true }
    }
}

/// The last `count` items of a sequence, all of them where it has fewer.
pub open spec fn last_items<T>(items: Seq<T>, count: nat) -> Seq<T> {
    if items.len() <= count {
        items
    } else {
        items.skip(items.len() - count)
    }
}

/// The lines that count: the first one dropped where it may be cut, then the
/// last `buffer_lines` of what is left.
pub open spec fn window_of(lines: Seq<String>, skip_first_line: bool, buffer_lines: nat) -> Seq<
    String,
> {
    if skip_first_line && lines.len() > 0 {
        last_items(lines.skip(1), buffer_lines)
    } else {
        last_items(lines, buffer_lines)
    }
}

/// Keeps the trailing window of the lines read from a transcript.
pub fn tail_lines(lines: Vec<String>, skip_first_line: bool, buffer_lines: usize) -> (window: Vec<
    String,
>)
    ensures
        window@ == window_of(lines@, skip_first_line, buffer_lines as nat),
{
    let mut lines = lines;
    let first: usize = if skip_first_line && lines.len() > 0 {
        1
    } else {
        0
    };
    let left: usize = lines.len() - first;
    let from: usize = if left <= buffer_lines {
        first
    } else {
        first + (left - buffer_lines)
    };
    let ghost all = lines@;
    let window = lines.split_off(from);
    proof {
        let rest = if first == 1 {
            all.skip(1)
        } else {
            all
        };
        assert(window@ =~= last_items(rest, buffer_lines as nat));
    }
    window
}

/// A window of fixed capacity over a stream of lines: it holds the last
/// lines pushed, at most `capacity` of them, the oldest leaving first.
pub struct LineWindow {
    lines: VecDeque<String>,
    capacity: usize,
}

impl LineWindow {
    /// The lines in the window, oldest first.
    pub closed spec fn view(self) -> Seq<String> {
        self.lines@
    }

    /// The most lines that the window holds.
    pub closed spec fn spec_capacity(self) -> nat {
        self.capacity as nat
    }

    /// The window holds no more lines than its capacity.
    pub open spec fn wf(self) -> bool {
        self.view().len() <= self.spec_capacity()
    }

    /// An empty window of the given capacity.
    pub fn new(capacity: usize) -> (w: LineWindow)
        ensures
            w.view() == Seq::<String>::empty(),
            w.spec_capacity() == capacity,
            w.wf(),
    {
        LineWindow { lines: VecDeque::new(), capacity }
    }

    /// The most lines that the window holds.
    pub fn capacity(&self) -> (c: usize)
        ensures
            c == self.spec_capacity(),
    {
        self.capacity
    }

    /// The number of lines in the window.
    pub fn len(&self) -> (n: usize)
        ensures
            n == self.view().len(),
    {
        self.lines.len()
    }

    /// Takes the next line of the stream into the window; the oldest line
    /// leaves where the window is full.
    pub fn push(&mut self, line: String)
        ensures
            final(self).spec_capacity() == old(self).spec_capacity(),
            final(self).view() == last_items(
                old(self).view().push(line),
                old(self).spec_capacity(),
            ),
            final(self).wf(),
    {
        if self.capacity == 0 {
            self.lines.clear();
            assert(self.lines@ =~= last_items(old(self).lines@.push(line), 0));
            return ;
        }
        while self.lines.len() >= self.capacity
            invariant
                self.capacity == old(self).capacity,
                self.capacity > 0,
                self.lines@.len() <= old(self).lines@.len(),
                self.lines@.len() == old(self).lines@.len() || self.lines@.len() >= self.capacity
                    - 1,
                self.lines@ == old(self).lines@.skip(old(self).lines@.len() - self.lines@.len()),
            decreases self.lines@.len(),
        {
            let _ = self.lines.pop_front();
            assert(self.lines@ =~= old(self).lines@.skip(
                old(self).lines@.len() - self.lines@.len(),
            ));
        }
        self.lines.push_back(line);
        assert(self.lines@ =~= last_items(old(self).lines@.push(line), self.capacity as nat));
    }

    /// The lines of the window, oldest first.
    pub fn into_lines(self) -> (lines: Vec<String>)
        ensures
            lines@ == self.view(),
    {
        let mut window = self;
        let mut lines: Vec<String> = Vec::new();
        let ghost all = window.lines@;
        while window.lines.len() > 0
            invariant
                all == lines@ + window.lines@,
            decreases window.lines@.len(),
        {
            if let Some(line) = window.lines.pop_front() {
                assert(all =~= lines@.push(line) + window.lines@);
                lines.push(line);
            }
        }
        assert(all =~= lines@);
        lines
    }
}

/// The window after a stream of lines has been pushed into it one by one.
pub open spec fn window_after(window: Seq<String>, stream: Seq<String>, capacity: nat) -> Seq<
    String,
>
    decreases stream.len(),
{
    if stream.len() == 0 {
        window
    } else {
        last_items(window_after(window, stream.drop_last(), capacity).push(stream.last()), capacity)
    }
}

/// A window that starts empty and takes a whole stream holds the last lines
/// of the stream, as many as its capacity allows.
pub proof fn lemma_window_holds_tail(stream: Seq<String>, capacity: nat)
    ensures
        window_after(Seq::empty(), stream, capacity) == last_items(stream, capacity),
    decreases stream.len(),
{
    if stream.len() == 0 {
    } else {
        let before = stream.drop_last();
        lemma_window_holds_tail(before, capacity);
        assert(stream =~= before.push(stream.last()));
        assert(last_items(last_items(before, capacity).push(stream.last()), capacity)
            =~= last_items(stream, capacity));
    }
}

/// Whether a record was written by the assistant.
pub open spec fn is_assistant(entry: TranscriptEntry) -> bool {
    entry.message.role@ == "assistant"@
}

/// The usage that a line contributes: that of an assistant record which
/// carries one. A line that did not decode contributes none.
pub open spec fn usage_of(line: Option<TranscriptEntry>) -> Option<Usage> {
    match line {
        Some(entry) => if is_assistant(entry) {
            entry.message.usage
        } else {
            None
        },
        None => None,
    }
}

/// The total token count that a line contributes, zero where it contributes
/// no usage.
pub open spec fn tokens_of(line: Option<TranscriptEntry>) -> nat {
    match usage_of(line) {
        Some(usage) => usage.spec_breakdown().spec_total(),
        None => 0,
    }
}

/// Whether the line at `at` is the peak: it has a positive total, no line
/// has a higher one, and every line before it has a lower one.
pub open spec fn is_peak(lines: Seq<Option<TranscriptEntry>>, at: int) -> bool {
    &&& 0 <= at < lines.len()
    &&& tokens_of(lines[at]) > 0
    &&& forall|j: int| 0 <= j < lines.len() ==> tokens_of(#[trigger] lines[j]) <= tokens_of(lines[at])
    &&& forall|j: int| 0 <= j < at ==> tokens_of(#[trigger] lines[j]) < tokens_of(lines[at])
}

/// The breakdown of the peak line; `None` where no line has a positive
/// total.
pub open spec fn peak_breakdown(lines: Seq<Option<TranscriptEntry>>) -> Option<TokenBreakdown> {
    if exists|at: int| is_peak(lines, at) {
        let at = choose|at: int| is_peak(lines, at);
        Some(usage_of(lines[at])->0.spec_breakdown())
    } else {
        None
    }
}

/// The total of the peak line.
pub open spec fn peak_tokens(lines: Seq<Option<TranscriptEntry>>) -> Option<u64> {
    match peak_breakdown(lines) {
        Some(breakdown) => Some(breakdown.spec_total() as u64),
        None => None,
    }
}

/// There is at most one peak.
pub proof fn lemma_peak_is_unique(lines: Seq<Option<TranscriptEntry>>, a: int, b: int)
    requires
        is_peak(lines, a),
        is_peak(lines, b),
    ensures
        a == b,
{
    if a < b {
        assert(tokens_of(lines[a]) < tokens_of(lines[b]));
        assert(tokens_of(lines[b]) <= tokens_of(lines[a]));
    } else if b < a {
        assert(tokens_of(lines[b]) < tokens_of(lines[a]));
        assert(tokens_of(lines[a]) <= tokens_of(lines[b]));
    }
}

/// The usage that a decoded line contributes.
pub fn line_usage(line: &Option<TranscriptEntry>) -> (usage: Option<Usage>)
    ensures
        usage == usage_of(*line),
{
    match line {
        Some(entry) => if str_eq(entry.message.role.as_str(), "assistant") {
            entry.message.usage
        } else {
            None
        },
        None => None,
    }
}

/// Picks the token breakdown of the trailing window: that of the assistant
/// record with the highest total, the earliest of them where several share
/// it. Lines that did not decode are `None` and are passed over. The result
/// is `None` where no record carries a positive total.
pub fn get_token_breakdown_from_transcript(lines: &Vec<Option<TranscriptEntry>>) -> (r: Option<
    TokenBreakdown,
>)
    ensures
        r == peak_breakdown(lines@),
        r is None <==> forall|j: int| 0 <= j < lines@.len() ==> tokens_of(#[trigger] lines@[j]) == 0,
{
    let mut best = TokenBreakdown::default();
    let mut max_total: u64 = 0;
    let ghost mut best_at: int = 0;
    let mut i: usize = 0;
    while i < lines.len()
        invariant
            i <= lines.len(),
            max_total == 0 ==> forall|j: int| 0 <= j < i ==> tokens_of(#[trigger] lines@[j]) == 0,
            max_total > 0 ==> {
                &&& 0 <= best_at < i
                &&& tokens_of(lines@[best_at]) == max_total
                &&& usage_of(lines@[best_at]) is Some
                &&& best == usage_of(lines@[best_at])->0.spec_breakdown()
                &&& forall|j: int| 0 <= j < i ==> tokens_of(#[trigger] lines@[j]) <= max_total
                &&& forall|j: int| 0 <= j < best_at ==> tokens_of(#[trigger] lines@[j]) < max_total
            },
        decreases lines.len() - i,
    {
        if let Some(usage) = line_usage(&lines[i]) {
            let breakdown = usage.breakdown();
            let total = breakdown.total();
            if total > max_total {
                max_total = total;
                best = breakdown;
                proof {
                    best_at = i as int;
                }
            }
        }
        i += 1;
    }
    if max_total > 0 {
        proof {
            assert(is_peak(lines@, best_at));
            let chosen = choose|at: int| is_peak(lines@, at);
            lemma_peak_is_unique(lines@, chosen, best_at);
        }
        Some(best)
    } else {
        assert forall|at: int| !is_peak(lines@, at) by {
            if 0 <= at < lines@.len() {
                assert(tokens_of(lines@[at]) == 0);
            }
        }
        None
    }
}

/// The highest total token count among the assistant records of the
/// trailing window.
pub fn get_token_count_from_transcript(lines: &Vec<Option<TranscriptEntry>>) -> (r: Option<u64>)
    ensures
        r == peak_tokens(lines@),
{
    match get_token_breakdown_from_transcript(lines) {
        Some(breakdown) => Some(breakdown.total()),
        None => None,
    }
}

/// The window of the current Sonnet and Opus models.
pub const MODERN_WINDOW: usize = 200_000;

/// The window of the older Sonnet and Opus models.
pub const LEGACY_WINDOW: usize = 160_000;

/// Whether a version is 3.5 or later: major 4 and up, or major 3 with minor
/// 5 and up. A name without a version is older.
pub open spec fn is_modern(version: Option<ModelVersion>) -> bool {
    match version {
        Some(v) => v.major >= 4 || (v.major == 3 && (v.minor matches Some(minor) && minor >= 5)),
        None => false,
    }
}

/// The window that the family and version of a model suggest; the default
/// for Haiku and for unknown models.
pub open spec fn family_window(model: ModelType, default_window: usize) -> usize {
    match model {
        ModelType::Model { family: ModelFamily::Sonnet, version } => if is_modern(version) {
            MODERN_WINDOW
        } else {
            LEGACY_WINDOW
        },
        ModelType::Model { family: ModelFamily::Opus, version } => if is_modern(version) {
            MODERN_WINDOW
        } else {
            LEGACY_WINDOW
        },
        _ => default_window,
    }
}

/// The window of a model. The user's own window for the name decides first;
/// then, where learning is switched on, a learned window of sufficient
/// confidence; then the family and version. Without a name the default
/// stands.
pub open spec fn context_window_for(
    model_name: Option<Seq<char>>,
    learned: Map<Seq<char>, crate::context_learning::LearnedWindow>,
    config: ContextConfig,
) -> usize {
    match model_name {
        None => config.window_size,
        Some(name) => if config.model_windows@.contains_key(name) {
            config.model_windows@[name]
        } else {
            let record = if learned.contains_key(name) {
                Some(learned[name])
            } else {
                None
            };
            match confident_window(record, config.learning_confidence_threshold) {
                Some(window) if config.adaptive_learning => window,
                _ => family_window(model_of(name), config.window_size),
            }
        },
    }
}

/// The learned window of a model, if the learner is confident enough of it
/// by the configured threshold.
pub fn get_learned_context_window(
    model_name: &str,
    learner: &ContextLearner,
    config: &Config,
) -> (r: Option<usize>)
    ensures
        r == confident_window(
            learner.record_of(model_name@),
            config.context.learning_confidence_threshold,
        ),
{
    learner.get_learned_window(model_name, config.context.learning_confidence_threshold)
}

/// The window that family and version suggest.
pub fn window_by_family(model: &ModelType, default_window: usize) -> (w: usize)
    ensures
        w == family_window(*model, default_window),
{
    match model {
        ModelType::Model { family, version } => {
            let modern = match version {
                Some(v) => v.major >= 4 || (v.major == 3 && match v.minor {
                    Some(minor) => minor >= 5,
                    None => false,
                }),
                None => false,
            };
            match family {
                ModelFamily::Sonnet | ModelFamily::Opus => if modern {
                    MODERN_WINDOW
                } else {
                    LEGACY_WINDOW
                },
                ModelFamily::Haiku => default_window,
            }
        },
        ModelType::Unknown => default_window,
    }
}

/// Resolves the context window of a model, in tokens.
pub fn get_context_window_for_model(
    model_name: Option<&str>,
    learner: &ContextLearner,
    config: &Config,
) -> (w: usize)
    ensures
        w == context_window_for(text_of(model_name), learner@, config.context),
{
    match model_name {
        None => config.context.window_size,
        Some(model) => {
            if let Some(custom) = config.context.model_windows.get(model) {
                return *custom;
            }
            if config.context.adaptive_learning {
                if let Some(window) = get_learned_context_window(model, learner, config) {
                    return window;
                }
            }
            window_by_family(&ModelType::from_name(model), config.context.window_size)
        },
    }
}

/// The full window that a resolved window stands for. With learning switched
/// on the resolved window is the working window, and the full one lies a
/// buffer above it; without, the resolved window is the full one.
pub open spec fn full_window(base_window: usize, config: ContextConfig) -> nat {
    if config.adaptive_learning {
        (base_window + config.buffer_size) as nat
    } else {
        base_window as nat
    }
}

/// The working window that a resolved window stands for: the resolved window
/// itself with learning switched on, else what the buffer leaves of it.
pub open spec fn working_window(base_window: usize, config: ContextConfig) -> nat {
    if config.adaptive_learning {
        base_window as nat
    } else if base_window >= config.buffer_size {
        (base_window - config.buffer_size) as nat
    } else {
        0
    }
}

/// The window that the share is taken of, by the display mode.
pub open spec fn measured_window(base_window: usize, config: ContextConfig) -> nat {
    if is_working_mode(config.percentage_mode@) {
        working_window(base_window, config)
    } else {
        full_window(base_window, config)
    }
}

/// The share of a window that a token count fills, in thousandths of a
/// percent, rounded down.
pub open spec fn share_of(tokens: nat, window: nat) -> nat
    recommends
        window > 0,
{
    (tokens * (FULL_PERCENT as nat) / window) as nat
}

/// The usage estimate for a token count against a resolved window. The
/// share is capped at 100 %; the limit is near where the uncapped share
/// reaches the effective threshold. A window of no tokens at all is full
/// with the first token.
pub open spec fn usage_estimate(
    tokens: u64,
    base_window: usize,
    state: CompactionState,
    config: ContextConfig,
) -> ContextUsage {
    let window = measured_window(base_window, config);
    let working = working_window(base_window, config);
    ContextUsage {
        percentage: if window == 0 || share_of(tokens as nat, window) > FULL_PERCENT {
            FULL_PERCENT
        } else {
            share_of(tokens as nat, window) as u32
        },
        approaching_limit: if window == 0 {
            tokens > 0
        } else {
            share_of(tokens as nat, window) >= config.effective_threshold()
        },
        tokens_remaining: if working >= tokens {
            (working - tokens) as usize
        } else {
            0
        },
        compaction_state: state,
    }
}

/// Estimates the usage for a token count against a resolved window.
pub fn estimate_usage(
    total_tokens: u64,
    base_window: usize,
    compaction_state: CompactionState,
    config: &Config,
) -> (usage: ContextUsage)
    ensures
        usage == usage_estimate(total_tokens, base_window, compaction_state, config.context),
        usage.percentage <= FULL_PERCENT,
{
    let buffer = config.context.buffer_size;
    let (full, working): (u128, u128) = if config.context.adaptive_learning {
        (base_window as u128 + buffer as u128, base_window as u128)
    } else if base_window >= buffer {
        (base_window as u128, (base_window - buffer) as u128)
    } else {
        (base_window as u128, 0)
    };
    let window: u128 = if str_eq(config.context.percentage_mode.as_str(), "working") {
        working
    } else {
        full
    };
    let threshold = config.context.get_effective_threshold();
    let (percentage, approaching_limit): (u32, bool) = if window == 0 {
        (FULL_PERCENT, total_tokens > 0)
    } else {
        let share: u128 = total_tokens as u128 * FULL_PERCENT as u128 / window;
        (if share > FULL_PERCENT as u128 {
            FULL_PERCENT
        } else {
            share as u32
        }, share >= threshold as u128)
    };
    let tokens_remaining: usize = if working >= total_tokens as u128 {
        (working - total_tokens as u128) as usize
    } else {
        0
    };
    ContextUsage { percentage, approaching_limit, tokens_remaining, compaction_state }
}

/// What the caller gathered about the session for the compaction check.
#[derive(Debug, Clone)]
pub struct CompactionSignals {
    /// The state that a fresh hook signal of the session reports, if there
    /// is one.
    pub hook_state: Option<String>,
    /// The highest token count that the ledger holds for the session.
    pub last_known_tokens: Option<u64>,
    /// The seconds since the transcript was last written, if known.
    pub modified_secs_ago: Option<u64>,
}

/// The usage estimate of an invocation: none without usage data in the
/// window of lines; else the estimate for the peak token count against the
/// window of the model, with the compaction state that the signals add up
/// to.
pub open spec fn context_usage_of(
    lines: Seq<Option<TranscriptEntry>>,
    model_name: Option<Seq<char>>,
    signals: CompactionSignals,
    learned: Map<Seq<char>, crate::context_learning::LearnedWindow>,
    config: Config,
) -> Option<ContextUsage> {
    match peak_tokens(lines) {
        None => None,
        Some(tokens) => Some(
            usage_estimate(
                tokens,
                context_window_for(model_name, learned, config.context),
                compaction_state_of(
                    hook_is_compacting(string_of(signals.hook_state)),
                    signals.last_known_tokens,
                    tokens,
                    is_recent(signals.modified_secs_ago),
                ),
                config.context,
            ),
        ),
    }
}

/// Estimates the context usage of an invocation from the decoded trailing
/// window of the transcript, the model name, the signals gathered for the
/// session, what was learned, and the settings.
pub fn calculate_context_usage(
    lines: &Vec<Option<TranscriptEntry>>,
    model_name: Option<&str>,
    signals: &CompactionSignals,
    learner: &ContextLearner,
    config: &Config,
) -> (r: Option<ContextUsage>)
    ensures
        r == context_usage_of(lines@, text_of(model_name), *signals, learner@, *config),
        r is None <==> peak_tokens(lines@) is None,
        r matches Some(usage) ==> usage.percentage <= FULL_PERCENT,
{
    let total_tokens = match get_token_count_from_transcript(lines) {
        Some(tokens) => tokens,
        None => {
            return None;
        },
    };
    let hook_state: Option<&str> = match &signals.hook_state {
        Some(state) => Some(state.as_str()),
        None => None,
    };
    let compaction_state = detect_compaction_state(
        total_tokens,
        hook_state,
        signals.last_known_tokens,
        signals.modified_secs_ago,
    );
    let base_window = get_context_window_for_model(model_name, learner, config);
    Some(estimate_usage(total_tokens, base_window, compaction_state, config))
}

/// The index of the last `c` in `s[..end]`, or -1 where there is none.
pub open spec fn last_index_of(s: Seq<char>, c: char, end: int) -> int
    decreases end,
{
    if end <= 0 || end > s.len() {
        -1
    } else if s[end - 1] == c {
        end - 1
    } else {
        last_index_of(s, c, end - 1)
    }
}

/// The last segment of a path: what follows its last slash.
pub open spec fn file_name_of(path: Seq<char>) -> Seq<char> {
    path.skip(last_index_of(path, '/', path.len() as int) + 1)
}

/// The extension of a path: what follows the last dot of its last segment.
/// A segment without a dot, one whose only dot stands at its start, and the
/// segment `..` have none.
pub open spec fn extension_of(path: Seq<char>) -> Option<Seq<char>> {
    let name = file_name_of(path);
    let dot = last_index_of(name, '.', name.len() as int);
    if dot <= 0 || name == seq!['.', '.'] {
        None
    } else {
        Some(name.skip(dot + 1))
    }
}

/// Whether a path has the extension of a transcript: `jsonl`, in any case of
/// its letters.
pub open spec fn has_transcript_extension(path: Seq<char>) -> bool {
    extension_of(path) matches Some(ext) && eq_ignore_ascii_case(ext, "jsonl"@)
}

/// The outcome of the validation of a transcript path. The security check of
/// the path comes first; then the resolved path must be a regular file; then
/// it must have the extension of a transcript.
pub open spec fn checked_transcript(
    path: Seq<char>,
    canonical: Option<Seq<char>>,
    is_file: bool,
) -> Result<Seq<char>, Seq<char>> {
    match checked_path(path, canonical) {
        Err(message) => Err(message),
        Ok(resolved) => if !is_file {
            Err("Path is not a file: "@ + path)
        } else {
            match extension_of(resolved) {
                None => Err("File must have .jsonl extension"@),
                Some(ext) => if eq_ignore_ascii_case(ext, "jsonl"@) {
                    Ok(resolved)
                } else {
                    Err("Only .jsonl files are allowed for transcripts"@)
                },
            }
        },
    }
}

/// The index of the last `c` before `end`, if there is one.
pub fn find_last(s: &Vec<char>, c: char, end: usize) -> (r: Option<usize>)
    requires
        end <= s.len(),
    ensures
        match r {
            Some(i) => i == last_index_of(s@, c, end as int) && i < end && s@[i as int] == c,
            None => last_index_of(s@, c, end as int) == -1,
        },
{
    let mut i: usize = end;
    while i > 0
        invariant
            i <= end <= s.len(),
            last_index_of(s@, c, end as int) == last_index_of(s@, c, i as int),
        decreases i,
    {
        if s[i - 1] == c {
            return Some(i - 1);
        }
        i -= 1;
    }
    None
}

/// The bounds of the extension within the characters of a path.
fn extension_bounds(path: &Vec<char>) -> (r: Option<(usize, usize)>)
    ensures
        match r {
            Some((from, to)) => from <= to <= path@.len() && extension_of(path@) == Some(
                path@.subrange(from as int, to as int),
            ),
            None => extension_of(path@) is None,
        },
{
    let start: usize = match find_last(path, '/', path.len()) {
        Some(slash) => slash + 1,
        None => 0,
    };
    let ghost name = file_name_of(path@);
    assert(name =~= path@.skip(start as int));
    // The last dot of the segment is the last dot of the path, unless that
    // one stands before the segment.
    let mut i: usize = path.len();
    while i > start
        invariant
            start <= i <= path.len(),
            name == file_name_of(path@),
            name == path@.skip(start as int),
            last_index_of(name, '.', name.len() as int) == last_index_of(name, '.', i - start),
        decreases i,
    {
        if path[i - 1] == '.' {
            assert(name[i - 1 - start] == '.');
            assert(last_index_of(name, '.', i - start) == i - 1 - start);
            let dot = i - 1;
            if dot == start {
                return None;
            }
            if path.len() - start == 2 && path[start] == '.' {
                assert(name =~= seq!['.', '.']);
                return None;
            }
            assert(name != seq!['.', '.']) by {
                if name.len() == 2 {
                    assert(name[0] != '.');
                }
            }
            assert(name.skip(dot - start + 1) =~= path@.subrange(dot + 1, path@.len() as int));
            return Some((dot + 1, path.len()));
        }
        assert(name[i - 1 - start] != '.');
        i -= 1;
    }
    None
}

/// Whether `chars[from..to]` is `jsonl`, in any case of its letters.
fn range_is_jsonl(chars: &Vec<char>, from: usize, to: usize) -> (r: bool)
    requires
        from <= to <= chars.len(),
    ensures
        r == eq_ignore_ascii_case(chars@.subrange(from as int, to as int), "jsonl"@),
{
    let ghost ext = chars@.subrange(from as int, to as int);
    let ghost want = "jsonl"@;
    proof {
        reveal_strlit("jsonl");
        assert(ascii_lowered(want) =~= want);
    }
    if to - from != 5 {
        assert(ascii_lowered(ext).len() != ascii_lowered(want).len());
        return false;
    }
    let matched = to_ascii_lower(chars[from]) == 'j' && to_ascii_lower(chars[from + 1]) == 's'
        && to_ascii_lower(chars[from + 2]) == 'o' && to_ascii_lower(chars[from + 3]) == 'n'
        && to_ascii_lower(chars[from + 4]) == 'l';
    proof {
        let low = ascii_lowered(ext);
        assert(low[0] == crate::text::ascii_lower(ext[0]));
        assert(low[1] == crate::text::ascii_lower(ext[1]));
        assert(low[2] == crate::text::ascii_lower(ext[2]));
        assert(low[3] == crate::text::ascii_lower(ext[3]));
        assert(low[4] == crate::text::ascii_lower(ext[4]));
        if matched {
            assert(low =~= want);
        }
    }
    matched
}

/// Whether a path has the extension of a transcript.
pub fn is_transcript_path(path: &str) -> (r: bool)
    ensures
        r == has_transcript_extension(path@),
{
    let chars = to_chars(path);
    match extension_bounds(&chars) {
        Some((from, to)) => range_is_jsonl(&chars, from, to),
        None => false,
    }
}

/// Validates the path of a transcript. `canonical` is what the file system
/// resolved the path to, or `None` where it could not; `is_file` says whether
/// the resolved path is a regular file. A path with a null character, one
/// that does not resolve, one that is no regular file and one without the
/// extension `jsonl` are each refused with an `InvalidPath` error.
pub fn validate_transcript_file(path: &str, canonical: Option<String>, is_file: bool) -> (r: Result<
    String,
    StatuslineError,
>)
    ensures
        agrees(r, checked_transcript(path@, string_of(canonical), is_file)),
        has_null_byte(path@) ==> r is Err,
        canonical is None ==> r is Err,
        !is_file ==> r is Err,
        r matches Ok(resolved) ==> string_of(canonical) == Some(resolved@)
            && has_transcript_extension(resolved@),
{
    let resolved = match validate_path_security(path, canonical) {
        Ok(resolved) => resolved,
        Err(e) => {
            return Err(e);
        },
    };
    if !is_file {
        let mut message = String::from_str("Path is not a file: ");
        message.append(path);
        return Err(StatuslineError::InvalidPath(message));
    }
    let chars = to_chars(resolved.as_str());
    match extension_bounds(&chars) {
        None => Err(StatuslineError::invalid_path("File must have .jsonl extension")),
        Some((from, to)) => if range_is_jsonl(&chars, from, to) {
            Ok(resolved)
        } else {
            Err(StatuslineError::invalid_path("Only .jsonl files are allowed for transcripts"))
        },
    }
}

/// The time between two moments, where both are known and the second is the
/// later one.
pub open spec fn span_between(first: Option<u64>, last: Option<u64>) -> Option<u64> {
    match (first, last) {
        (Some(start), Some(end)) => if end > start {
            Some((end - start) as u64)
        } else {
            None
        },
        _ => None,
    }
}

/// The last line among the first `end` that decoded.
pub open spec fn last_decoded(lines: Seq<Option<TranscriptEntry>>, end: int) -> Option<
    TranscriptEntry,
>
    decreases end,
{
    if end <= 0 || end > lines.len() {
        None
    } else if lines[end - 1] is Some {
        lines[end - 1]
    } else {
        last_decoded(lines, end - 1)
    }
}

/// The moment of a record, where its timestamp can be read.
pub open spec fn moment_of(entry: Option<TranscriptEntry>) -> Option<u64> {
    match entry {
        Some(e) => iso8601_seconds(e.timestamp@),
        None => None,
    }
}

/// The duration of a session: the time from the moment of its first line to
/// the moment of the last line that decoded. There is none where the first
/// line did not decode, where either timestamp cannot be read, or where the
/// last moment is not later than the first.
pub open spec fn duration_of(lines: Seq<Option<TranscriptEntry>>) -> Option<u64> {
    if lines.len() == 0 {
        None
    } else {
        span_between(moment_of(lines[0]), moment_of(last_decoded(lines, lines.len() as int)))
    }
}

/// The time in seconds between two moments.
pub fn duration_between(first: Option<u64>, last: Option<u64>) -> (r: Option<u64>)
    ensures
        r == span_between(first, last),
{
    match (first, last) {
        (Some(start), Some(end)) => if end > start {
            Some(end - start)
        } else {
            None
        },
        _ => None,
    }
}

/// The duration of a session in seconds, from the decoded lines of its
/// transcript.
pub fn parse_duration(lines: &Vec<Option<TranscriptEntry>>) -> (r: Option<u64>)
    ensures
        r == duration_of(lines@),
{
    if lines.len() == 0 {
        return None;
    }
    let first = match &lines[0] {
        Some(entry) => parse_iso8601_to_unix(entry.timestamp.as_str()),
        None => None,
    };
    let mut i: usize = lines.len();
    while i > 0
        invariant
            0 < lines.len(),
            i <= lines.len(),
            first == moment_of(lines@[0]),
            last_decoded(lines@, lines@.len() as int) == last_decoded(lines@, i as int),
        decreases i,
    {
        if let Some(entry) = &lines[i - 1] {
            let last = parse_iso8601_to_unix(entry.timestamp.as_str());
            return duration_between(first, last);
        }
        i -= 1;
    }
    duration_between(first, None)
}

/// A token count as a window size, the largest size where the count is
/// larger.
pub open spec fn as_window(tokens: u64) -> usize {
    if tokens > usize::MAX {
        usize::MAX
    } else {
        tokens as usize
    }
}

/// The token count to learn from, if there is one: with learning switched
/// on and a model named, a fall of the token count by more than half shows
/// that the last known count was where compaction set in.
pub open spec fn lesson_of(
    model_name: Option<Seq<char>>,
    last_known: Option<u64>,
    current: u64,
    config: ContextConfig,
) -> Option<usize> {
    if config.adaptive_learning && model_name is Some && last_known is Some
        && dropped_by_more_than_half(last_known->0 as nat, current as nat) {
        Some(as_window(last_known->0))
    } else {
        None
    }
}

/// Lets the learner take note of a compaction where the token counts show
/// one, and says whether it did. Nothing is learned with learning switched
/// off, without a model name, or without a fall by more than half.
pub fn learn_from_drop(
    learner: &mut ContextLearner,
    model_name: Option<&str>,
    last_known_tokens: Option<u64>,
    current_tokens: u64,
    config: &Config,
) -> (learned: bool)
    ensures
        learned == lesson_of(text_of(model_name), last_known_tokens, current_tokens, config.context)
            is Some,
        match lesson_of(text_of(model_name), last_known_tokens, current_tokens, config.context) {
            Some(observed) => final(learner)@ == old(learner)@.insert(
                model_name->0@,
                observed_once_more(old(learner).record_of(model_name->0@), observed),
            ),
            None => final(learner)@ == old(learner)@,
        },
{
    if !config.context.adaptive_learning {
        return false;
    }
    match (model_name, last_known_tokens) {
        (Some(model), Some(last)) => {
            let dropped = current_tokens < last && (last - current_tokens) as u128 * 2
                > last as u128;
            if dropped {
                let observed: usize = if last > usize::MAX as u64 {
                    usize::MAX
                } else {
                    last as usize
                };
                learner.observe(model, observed);
                true
            } else {
                false
            }
        },
        _ => false,
    }
}

/// A path without a dot is no transcript, even where it resolves to itself
/// and is a regular file: text made of shell metacharacters alone is refused.
pub proof fn lemma_no_dot_no_transcript(path: Seq<char>)
    requires
        !path.contains('.'),
    ensures
        !has_transcript_extension(path),
        checked_transcript(path, Some(path), true) is Err,
{
    let name = file_name_of(path);
    lemma_last_index(path, '/', path.len() as int);
    assert forall|i: int| 0 <= i < name.len() implies name[i] != '.' by {
        let at = last_index_of(path, '/', path.len() as int) + 1 + i;
        assert(name[i] == path[at]);
        assert(path.contains(path[at]));
    }
    lemma_last_index(name, '.', name.len() as int);
}

/// The last index of a character is an index that holds it, or -1 where no
/// index does.
pub proof fn lemma_last_index(s: Seq<char>, c: char, end: int)
    requires
        0 <= end <= s.len(),
    ensures
        -1 <= last_index_of(s, c, end) < end,
        last_index_of(s, c, end) >= 0 ==> s[last_index_of(s, c, end)] == c,
        last_index_of(s, c, end) == -1 ==> forall|i: int| 0 <= i < end ==> s[i] != c,
    decreases end,
{
    if end > 0 && s[end - 1] != c {
        lemma_last_index(s, c, end - 1);
    }
}

/// A path with a null character is refused, whatever the file system says
/// of it.
pub proof fn lemma_null_byte_is_refused(path: Seq<char>, canonical: Option<Seq<char>>, is_file: bool)
    requires
        has_null_byte(path),
    ensures
        checked_transcript(path, canonical, is_file) is Err,
{
}

/// A path is accepted only with the extension of a transcript on what it
/// resolves to.
pub proof fn lemma_other_extensions_are_refused(
    path: Seq<char>,
    canonical: Option<Seq<char>>,
    is_file: bool,
)
    requires
        canonical matches Some(resolved) ==> !has_transcript_extension(resolved),
    ensures
        checked_transcript(path, canonical, is_file) is Err,
{
}

} // verus!
