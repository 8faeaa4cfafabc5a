//! Bounded capture of service output: one store per output stream.
//!
//! A store keeps the newest lines up to its capacity. Lines are stamped,
//! levelled and freed of terminal escape sequences before they are kept.

use crate::text::{chars_of, contains, contains_str, is_control, is_control_char, string_of};
use std::collections::VecDeque;
use vstd::prelude::*;

verus! {

// ---------------------------------------------------------------------------
// Escape sequences
// ---------------------------------------------------------------------------

pub open spec fn esc() -> char {
    '\u{1b}'
}

pub open spec fn bel() -> char {
    '\u{7}'
}

/// The byte that ends a CSI sequence.
pub open spec fn is_csi_final(c: char) -> bool {
    let n = c as u32;
    0x40 <= n && n <= 0x7e
}

/// Whether `s` begins with the string terminator, ESC and a backslash.
pub open spec fn at_terminator(s: Seq<char>) -> bool {
    s.len() > 1 && s[0] == esc() && s[1] == '\\'
}

/// Length of the rest of a CSI sequence: everything up to and including
/// its final byte, or all of `t` where none comes.
pub open spec fn csi_len(t: Seq<char>) -> nat
    decreases t.len(),
{
    if t.len() == 0 {
        0
    } else if is_csi_final(t[0]) {
        1
    } else {
        1 + csi_len(t.drop_first())
    }
}

/// Length of the rest of an OSC sequence: everything up to and including
/// BEL or the string terminator, or all of `t` where neither comes.
pub open spec fn osc_len(t: Seq<char>) -> nat
    decreases t.len(),
{
    if t.len() == 0 {
        0
    } else if t[0] == bel() {
        1
    } else if at_terminator(t) {
        2
    } else {
        1 + osc_len(t.drop_first())
    }
}

/// Length of the rest of a DCS, SOS, PM or APC sequence: everything up to
/// and including the string terminator, or all of `t` where none comes.
pub open spec fn dcs_len(t: Seq<char>) -> nat
    decreases t.len(),
{
    if t.len() == 0 {
        0
    } else if at_terminator(t) {
        2
    } else {
        1 + dcs_len(t.drop_first())
    }
}

/// Length of the escape sequence that `s` begins with, ESC included.
pub open spec fn escape_len(s: Seq<char>) -> nat
    recommends
        s.len() > 0 && s[0] == esc(),
{
    if s.len() < 2 {
        1
    } else if s[1] == '[' {
        2 + csi_len(s.skip(2))
    } else if s[1] == ']' {
        2 + osc_len(s.skip(2))
    } else if s[1] == 'P' || s[1] == 'X' || s[1] == '^' || s[1] == '_' {
        2 + dcs_len(s.skip(2))
    } else {
        2
    }
}

/// Whether a character outside escape sequences is kept: printable
/// characters, line feed, carriage return and tab.
pub open spec fn is_kept(c: char) -> bool {
    !is_control(c) || c == '\n' || c == '\r' || c == '\t'
}

/// `s` without escape sequences and without other control characters.
pub open spec fn strip_ansi(s: Seq<char>) -> Seq<char>
    decreases s.len(),
{
    if s.len() == 0 {
        s
    } else if s[0] == esc() {
        proof {
            lemma_escape_len_bound(s);
        }
        strip_ansi(s.skip(escape_len(s) as int))
    } else if is_kept(s[0]) {
        seq![s[0]] + strip_ansi(s.drop_first())
    } else {
        strip_ansi(s.drop_first())
    }
}

pub proof fn lemma_csi_len_bound(t: Seq<char>)
    ensures
        csi_len(t) <= t.len(),
    decreases t.len(),
{
    if t.len() > 0 && !is_csi_final(t[0]) {
        lemma_csi_len_bound(t.drop_first());
    }
}

pub proof fn lemma_osc_len_bound(t: Seq<char>)
    ensures
        osc_len(t) <= t.len(),
    decreases t.len(),
{
    if t.len() > 0 && t[0] != bel() && !at_terminator(t) {
        lemma_osc_len_bound(t.drop_first());
    }
}

pub proof fn lemma_dcs_len_bound(t: Seq<char>)
    ensures
        dcs_len(t) <= t.len(),
    decreases t.len(),
{
    if t.len() > 0 && !at_terminator(t) {
        lemma_dcs_len_bound(t.drop_first());
    }
}

pub proof fn lemma_escape_len_bound(s: Seq<char>)
    requires
        s.len() > 0,
    ensures
        1 <= escape_len(s) <= s.len(),
{
    if s.len() >= 2 {
        lemma_csi_len_bound(s.skip(2));
        lemma_osc_len_bound(s.skip(2));
        lemma_dcs_len_bound(s.skip(2));
    }
}

/// What is kept holds no escape character and no control character but
/// line feed, carriage return and tab.
pub proof fn lemma_strip_ansi_clean(s: Seq<char>)
    ensures
        forall|k: int| 0 <= k < strip_ansi(s).len() ==> is_kept(#[trigger] strip_ansi(s)[k]),
        strip_ansi(s).len() <= s.len(),
    decreases s.len(),
{
    if s.len() == 0 {
    } else if s[0] == esc() {
        lemma_escape_len_bound(s);
        lemma_strip_ansi_clean(s.skip(escape_len(s) as int));
    } else {
        lemma_strip_ansi_clean(s.drop_first());
    }
}

/// A text without control characters is kept as it is.
pub proof fn lemma_strip_ansi_plain(s: Seq<char>)
    requires
        forall|k: int| 0 <= k < s.len() ==> is_kept(#[trigger] s[k]),
    ensures
        strip_ansi(s) == s,
    decreases s.len(),
{
    if s.len() > 0 {
        let t = s.drop_first();
        assert forall|k: int| 0 <= k < t.len() implies is_kept(#[trigger] t[k]) by {
            assert(t[k] == s[k + 1]);
        }
        lemma_strip_ansi_plain(t);
        assert(s[0] != esc());
        assert(seq![s[0]] + t =~= s);
    }
}

fn is_terminator_at(v: &Vec<char>, i: usize) -> (r: bool)
    requires
        i < v.len(),
    ensures
        r == at_terminator(v@.skip(i as int)),
{
    v[i] == '\u{1b}' && i + 1 < v.len() && v[i + 1] == '\\'
}

fn csi_len_from(v: &Vec<char>, from: usize) -> (n: usize)
    requires
        from <= v.len(),
    ensures
        n == csi_len(v@.skip(from as int)),
        from + n <= v.len(),
{
    let mut i: usize = from;
    while i < v.len()
        invariant
            from <= i <= v.len(),
            csi_len(v@.skip(from as int)) == (i - from) + csi_len(v@.skip(i as int)),
        decreases v.len() - i,
    {
        let b: u32 = v[i] as u32;
        proof {
            assert(v@.skip(i as int).drop_first() == v@.skip(i + 1));
        }
        if 0x40 <= b && b <= 0x7e {
            return i - from + 1;
        }
        i = i + 1;
    }
    i - from
}

fn osc_len_from(v: &Vec<char>, from: usize) -> (n: usize)
    requires
        from <= v.len(),
    ensures
        n == osc_len(v@.skip(from as int)),
        from + n <= v.len(),
{
    let mut i: usize = from;
    while i < v.len()
        invariant
            from <= i <= v.len(),
            osc_len(v@.skip(from as int)) == (i - from) + osc_len(v@.skip(i as int)),
        decreases v.len() - i,
    {
        proof {
            assert(v@.skip(i as int).drop_first() == v@.skip(i + 1));
        }
        if v[i] == '\u{7}' {
            return i - from + 1;
        }
        if is_terminator_at(v, i) {
            return i - from + 2;
        }
        i = i + 1;
    }
    i - from
}

fn dcs_len_from(v: &Vec<char>, from: usize) -> (n: usize)
    requires
        from <= v.len(),
    ensures
        n == dcs_len(v@.skip(from as int)),
        from + n <= v.len(),
{
    let mut i: usize = from;
    while i < v.len()
        invariant
            from <= i <= v.len(),
            dcs_len(v@.skip(from as int)) == (i - from) + dcs_len(v@.skip(i as int)),
        decreases v.len() - i,
    {
        proof {
            assert(v@.skip(i as int).drop_first() == v@.skip(i + 1));
        }
        if is_terminator_at(v, i) {
            return i - from + 2;
        }
        i = i + 1;
    }
    i - from
}

fn escape_len_at(v: &Vec<char>, i: usize) -> (n: usize)
    requires
        i < v.len(),
        v@[i as int] == esc(),
    ensures
        n == escape_len(v@.skip(i as int)),
        1 <= n,
        i + n <= v.len(),
{
    let ghost s = v@.skip(i as int);
    if i + 1 >= v.len() {
        return 1;
    }
    let c = v[i + 1];
    assert(s[1] == c);
    assert(s.skip(2) == v@.skip(i + 2));
    if c == '[' {
        2 + csi_len_from(v, i + 2)
    } else if c == ']' {
        2 + osc_len_from(v, i + 2)
    } else if c == 'P' || c == 'X' || c == '^' || c == '_' {
        2 + dcs_len_from(v, i + 2)
    } else {
        2
    }
}

/// Removes terminal escape sequences (CSI, OSC, DCS and their kin) and
/// every other control character but line feed, carriage return and tab.
pub fn strip_ansi_codes(input: &str) -> (out: String)
    ensures
        out@ == strip_ansi(input@),
{
    let v = chars_of(input);
    let mut out: Vec<char> = Vec::new();
    let mut i: usize = 0;
    assert(v@.skip(0) == v@);
    while i < v.len()
        invariant
            i <= v.len(),
            strip_ansi(v@) == out@ + strip_ansi(v@.skip(i as int)),
        decreases v.len() - i,
    {
        let ch = v[i];
        let ghost s = v@.skip(i as int);
        assert(s[0] == ch);
        assert(s.drop_first() == v@.skip(i + 1));
        if ch == '\u{1b}' {
            let n = escape_len_at(&v, i);
            assert(s.skip(n as int) == v@.skip(i + n));
            i = i + n;
        } else if is_control_char(ch) && !(ch == '\n' || ch == '\r' || ch == '\t') {
            i = i + 1;
        } else {
            let ghost before = out@;
            out.push(ch);
            assert(before + (seq![ch] + strip_ansi(s.drop_first())) =~= out@ + strip_ansi(
                s.drop_first(),
            ));
            i = i + 1;
        }
    }
    assert(strip_ansi(v@.skip(v.len() as int)) =~= Seq::<char>::empty());
    assert(out@ + Seq::<char>::empty() =~= out@);
    string_of(&out)
}

// ---------------------------------------------------------------------------
// Lines
// ---------------------------------------------------------------------------

/// Severity of a captured line.
#[derive(Clone, Copy, Debug, PartialEq, Eq, Structural)]
pub enum LogLevel {
    Info,
    Warn,
    Error,
}

impl LogLevel {
    /// The name under which the level is served.
    pub open spec fn name(self) -> Seq<char> {
        match self {
            LogLevel::Info => "INFO"@,
            LogLevel::Warn => "WARN"@,
            LogLevel::Error => "ERROR"@,
        }
    }

    pub fn as_str(&self) -> (r: &'static str)
        ensures
            r@ == self.name(),
    {
        match self {
            LogLevel::Info => "INFO",
            LogLevel::Warn => "WARN",
            LogLevel::Error => "ERROR",
        }
    }
}

// ---------------------------------------------------------------------------
// Levels of lines that carry none
// ---------------------------------------------------------------------------

/// The level that the markers of a line give it: `FATAL:`, `ERROR:` and
/// `PANIC:` mark an error, `WARNING:` marks a warning. An error marker
/// counts before a warning marker.
pub open spec fn marked_level(line: Seq<char>) -> Option<LogLevel> {
    if contains(line, "FATAL:"@) || contains(line, "ERROR:"@) || contains(line, "PANIC:"@) {
        Some(LogLevel::Error)
    } else if contains(line, "WARNING:"@) {
        Some(LogLevel::Warn)
    } else {
        None
    }
}

/// The level of a line of output that has no format of its own. A line
/// that only says that the process is still starting up is informational,
/// whatever it looks like; a line with a marker has the marker's level;
/// any other line has the level that the caller gives for its stream.
pub open spec fn level_of(line: Seq<char>, still_starting: bool, fallback: LogLevel) -> LogLevel {
    if still_starting {
        LogLevel::Info
    } else {
        match marked_level(line) {
            Some(level) => level,
            None => fallback,
        }
    }
}

/// Classifies a line of output that has no format of its own.
/// `still_starting` says whether the line only tells that the process is
/// still starting up; `fallback` is the level of the stream that the line
/// came from.
pub fn classify(line: &str, still_starting: bool, fallback: LogLevel) -> (r: LogLevel)
    ensures
        r == level_of(line@, still_starting, fallback),
{
    if still_starting {
        return LogLevel::Info;
    }
    let v = chars_of(line);
    if contains_str(&v, "FATAL:") || contains_str(&v, "ERROR:") || contains_str(&v, "PANIC:") {
        LogLevel::Error
    } else if contains_str(&v, "WARNING:") {
        LogLevel::Warn
    } else {
        fallback
    }
}

/// A marker decides the level whatever the stream, and a line without a
/// marker has the level of its stream; a line that tells of the start is
/// never more than informational.
pub proof fn lemma_level_of(line: Seq<char>, fallback: LogLevel)
    ensures
        level_of(line, true, fallback) == LogLevel::Info,
        marked_level(line) is None ==> level_of(line, false, fallback) == fallback,
        marked_level(line) matches Some(level) ==> level_of(line, false, fallback) == level
            && level != LogLevel::Info,
{
}

/// One captured line.
#[derive(Clone, Debug, PartialEq, Eq)]
pub struct LogLine {
    /// RFC 3339 time at which the line was captured.
    pub ts: String,
    pub level: LogLevel,
    pub message: String,
}

/// What a captured line says.
pub ghost struct LineView {
    pub ts: Seq<char>,
    pub level: LogLevel,
    pub message: Seq<char>,
}

impl View for LogLine {
    type V = LineView;

    open spec fn view(&self) -> LineView {
        LineView { ts: self.ts@, level: self.level, message: self.message@ }
    }
}

impl LogLine {
    /// A copy of the line.
    pub fn duplicate(&self) -> (r: LogLine)
        ensures
            r@ == self@,
    {
        LogLine { ts: self.ts.clone(), level: self.level, message: self.message.clone() }
    }
}

/// The line that says `message`, freed of escape sequences, at the given
/// level and time.
pub open spec fn stamped(ts: Seq<char>, level: LogLevel, message: Seq<char>) -> LineView {
    LineView { ts, level, message: strip_ansi(message) }
}

/// What a sequence of lines says.
pub open spec fn views(lines: Seq<LogLine>) -> Seq<LineView> {
    lines.map_values(|l: LogLine| l@)
}

/// Whether a line holds no escape sequence: stripping its message
/// changes nothing.
pub open spec fn is_clean(line: LineView) -> bool {
    strip_ansi(line.message) == line.message
}

/// Whether every one of the lines is clean.
pub open spec fn all_clean(lines: Seq<LineView>) -> bool {
    forall|i: int| 0 <= i < lines.len() ==> is_clean(#[trigger] lines[i])
}

/// Stripping a text that was stripped changes nothing.
pub proof fn lemma_strip_ansi_idempotent(s: Seq<char>)
    ensures
        strip_ansi(strip_ansi(s)) == strip_ansi(s),
{
    lemma_strip_ansi_clean(s);
    lemma_strip_ansi_plain(strip_ansi(s));
}

/// A line as the store keeps it is clean, whatever the message held.
pub proof fn lemma_stamped_is_clean(ts: Seq<char>, level: LogLevel, message: Seq<char>)
    ensures
        is_clean(stamped(ts, level, message)),
{
    lemma_strip_ansi_idempotent(message);
}

/// Clean lines stay clean when a clean line arrives.
pub proof fn lemma_pushed_clean(lines: Seq<LineView>, capacity: nat, line: LineView)
    requires
        all_clean(lines),
        is_clean(line),
    ensures
        all_clean(pushed(lines, capacity, line)),
{
    let after = pushed(lines, capacity, line);
    assert forall|i: int| 0 <= i < after.len() implies is_clean(#[trigger] after[i]) by {
        if capacity == 0 {
        } else if lines.len() >= capacity {
            if i < after.len() - 1 {
                assert(after[i] == lines[i + 1]);
            }
        } else {
            if i < lines.len() {
                assert(after[i] == lines[i]);
            }
        }
    }
}

// ---------------------------------------------------------------------------
// The store
// ---------------------------------------------------------------------------

/// The lines held after `line` arrives at a store of the given capacity
/// that holds `lines`: the oldest line leaves first where the store is full.
pub open spec fn pushed(lines: Seq<LineView>, capacity: nat, line: LineView) -> Seq<LineView> {
    if capacity == 0 {
        lines
    } else if lines.len() >= capacity {
        lines.drop_first().push(line)
    } else {
        lines.push(line)
    }
}

/// The lines held after all of `incoming` arrived in order.
pub open spec fn pushed_all(lines: Seq<LineView>, capacity: nat, incoming: Seq<LineView>) -> Seq<
    LineView,
>
    decreases incoming.len(),
{
    if incoming.len() == 0 {
        lines
    } else {
        pushed(pushed_all(lines, capacity, incoming.drop_last()), capacity, incoming.last())
    }
}

/// The newest `limit` of `lines`, or all of them where there are fewer.
pub open spec fn newest<T>(lines: Seq<T>, limit: nat) -> Seq<T> {
    if limit >= lines.len() {
        lines
    } else {
        lines.skip(lines.len() - limit)
    }
}

/// The current time as an RFC 3339 string.
///
/// Wraps `chrono::Utc::now` and `DateTime::to_rfc3339`. The result depends
/// on the clock, so nothing is claimed of it.
#[verifier::external_body]
pub(crate) fn now_rfc3339() -> String {
    chrono::Utc::now().to_rfc3339()
}

/// A bounded first-in, first-out store of captured lines.
pub struct LogStore {
    capacity: usize,
    lines: VecDeque<LogLine>,
}

impl View for LogStore {
    type V = Seq<LineView>;

    closed spec fn view(&self) -> Seq<LineView> {
        views(self.lines@)
    }
}

impl LogStore {
    /// The most lines the store holds.
    pub closed spec fn cap(&self) -> nat {
        self.capacity as nat
    }

    /// The store never holds more lines than its capacity, and every
    /// line that it holds is free of escape sequences.
    #[verifier::type_invariant]
    spec fn within_capacity(&self) -> bool {
        self.lines@.len() <= self.capacity && all_clean(views(self.lines@))
    }

    /// An empty store that holds up to `capacity` lines.
    pub fn new(capacity: usize) -> (store: Self)
        ensures
            store@ == Seq::<LineView>::empty(),
            store.cap() == capacity,
    {
        let store = LogStore { capacity, lines: VecDeque::new() };
        assert(store@ =~= Seq::<LineView>::empty());
        store
    }

    /// The most lines the store holds.
    pub fn capacity(&self) -> (c: usize)
        ensures
            c == self.cap(),
    {
        self.capacity
    }

    /// Number of lines held.
    pub fn len(&self) -> (n: usize)
        ensures
            n == self@.len(),
            n <= self.cap(),
            all_clean(self@),
    {
        proof {
            use_type_invariant(self);
        }
        self.lines.len()
    }

    /// Keeps `message`, freed of escape sequences, under the given time
    /// stamp. Where the store is full the oldest line leaves first.
    pub fn push_at(&mut self, ts: String, level: LogLevel, message: &str)
        ensures
            final(self).cap() == old(self).cap(),
            final(self)@ == pushed(old(self)@, old(self).cap(), stamped(ts@, level, message@)),
            final(self)@.len() <= final(self).cap(),
            all_clean(final(self)@),
    {
        proof {
            use_type_invariant(&*self);
            lemma_stamped_is_clean(ts@, level, message@);
            lemma_pushed_clean(old(self)@, old(self).cap(), stamped(ts@, level, message@));
        }
        if self.capacity == 0 {
            return ;
        }
        let clean = strip_ansi_codes(message);
        let line = LogLine { ts, level, message: clean };
        let ghost before = self.lines@;
        let mut lines = VecDeque::new();
        std::mem::swap(&mut lines, &mut self.lines);
        if lines.len() >= self.capacity {
            let _ = lines.pop_front();
        }
        lines.push_back(line);
        proof {
            let lv = stamped(ts@, level, message@);
            if before.len() >= self.capacity {
                assert(views(before.drop_first().push(line)) =~= views(before).drop_first().push(
                    lv,
                ));
            } else {
                assert(views(before.push(line)) =~= views(before).push(lv));
            }
            assert(views(lines@) == pushed(views(before), self.capacity as nat, lv));
        }
        self.lines = lines;
    }

    /// Keeps `message`, freed of escape sequences, stamped with the
    /// current time.
    pub fn push(&mut self, level: LogLevel, message: &str)
        ensures
            final(self).cap() == old(self).cap(),
            exists|ts: Seq<char>|
                final(self)@ == pushed(
                    old(self)@,
                    old(self).cap(),
                    #[trigger] stamped(ts, level, message@),
                ),
            final(self)@.len() <= final(self).cap(),
            all_clean(final(self)@),
    {
        let ts = now_rfc3339();
        self.push_at(ts, level, message);
    }

    /// The newest `limit` lines, oldest first. The store is left as it is.
    pub fn snapshot(&self, limit: usize) -> (out: Vec<LogLine>)
        ensures
            views(out@) == newest(self@, limit as nat),
            all_clean(views(out@)),
    {
        proof {
            use_type_invariant(self);
        }
        let total = self.lines.len();
        let start = if limit >= total {
            0
        } else {
            total - limit
        };
        let mut out: Vec<LogLine> = Vec::new();
        let mut i: usize = start;
        while i < total
            invariant
                start <= i <= total,
                total == self.lines@.len(),
                out.len() == i - start,
                forall|k: int| 0 <= k < out.len() ==> (#[trigger] out@[k])@ == self.lines@[start + k]@,
            decreases total - i,
        {
            out.push(self.lines[i].duplicate());
            i = i + 1;
        }
        assert(views(out@) =~= newest(self@, limit as nat));
        assert forall|k: int| 0 <= k < views(out@).len() implies is_clean(
            #[trigger] views(out@)[k],
        ) by {
            assert(views(out@)[k] == out@[k]@);
            assert(out@[k]@ == views(self.lines@)[start + k]);
        }
        out
    }
}

/// At most `capacity` lines are held after a push.
pub proof fn lemma_pushed_bounded(lines: Seq<LineView>, capacity: nat, line: LineView)
    requires
        lines.len() <= capacity,
    ensures
        pushed(lines, capacity, line).len() <= capacity,
{
}

/// A store holds the newest lines of all that it ever received, as many
/// as its capacity allows, in the order in which they came.
pub proof fn lemma_store_keeps_newest(lines: Seq<LineView>, capacity: nat, incoming: Seq<LineView>)
    requires
        lines.len() <= capacity,
    ensures
        pushed_all(lines, capacity, incoming).len() <= capacity,
        capacity > 0 ==> pushed_all(lines, capacity, incoming) == newest(lines + incoming, capacity),
        capacity == 0 ==> pushed_all(lines, capacity, incoming) == lines,
    decreases incoming.len(),
{
    if incoming.len() == 0 {
        assert(lines + incoming =~= lines);
    } else {
        let head = incoming.drop_last();
        lemma_store_keeps_newest(lines, capacity, head);
        if capacity > 0 {
            let prev = newest(lines + head, capacity);
            assert(lines + incoming =~= (lines + head).push(incoming.last()));
            assert(pushed(prev, capacity, incoming.last()) =~= newest(lines + incoming, capacity));
        }
    }
}

/// After more lines than the capacity were pushed into a store, it holds
/// exactly the last `capacity` of them, in order.
pub proof fn lemma_overfull_store(capacity: nat, incoming: Seq<LineView>)
    requires
        incoming.len() > capacity,
    ensures
        pushed_all(Seq::empty(), capacity, incoming).len() == capacity,
        pushed_all(Seq::empty(), capacity, incoming) == incoming.skip(incoming.len() - capacity),
{
    lemma_store_keeps_newest(Seq::empty(), capacity, incoming);
    assert(Seq::<LineView>::empty() + incoming =~= incoming);
    if capacity == 0 {
        assert(incoming.skip(incoming.len() as int) =~= Seq::<LineView>::empty());
    }
}

/// A snapshot is a suffix of what the store holds, and asking again for a
/// snapshot of the same store gives the same lines.
pub proof fn lemma_snapshot_stable(lines: Seq<LineView>, limit: nat, again: nat)
    ensures
        newest(lines, limit).len() == if limit <= lines.len() {
            limit
        } else {
            lines.len()
        },
        newest(lines, limit) == lines.skip(lines.len() - newest(lines, limit).len()),
        again == limit ==> newest(lines, again) == newest(lines, limit),
{
    assert(lines.skip(0) =~= lines);
}

/// The five stores of the self-hosted services.
pub struct LogStores {
    pub postgres: LogStore,
    pub indexer: LogStore,
    pub k_indexer: LogStore,
    pub rest: LogStore,
    pub socket: LogStore,
}

} // verus!
