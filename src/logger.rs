//! Run-length compaction of activity samples.
//!
//! Each sample is a window title and a command line. Consecutive equal
//! samples extend one entry by the sampling interval; a different sample
//! finalizes the current entry into the pending batch and starts a new one.
//! Every so many samples (the flush interval over the sampling interval) the
//! batch, with the current entry, is handed back to be written, and a
//! zero-duration entry takes the current entry's place.
use vstd::prelude::*;

verus! {

/// A local calendar time as the system clock gives it.
#[derive(Debug, Clone, Copy, PartialEq, Eq, Structural)]
pub struct LocalTime {
    pub year: u16,
    pub month: u16,
    pub day: u16,
    pub hour: u16,
    pub minute: u16,
    pub second: u16,
}

/// One line of the activity log: from `timestamp` on, for
/// `duration_in_seconds`, this window title and command line were in front.
#[derive(Debug, Clone)]
pub struct Entry {
    pub timestamp: LocalTime,
    pub duration_in_seconds: u64,
    pub window_title: String,
    pub command_line: String,
}

pub struct EntryView {
    pub start: LocalTime,
    pub duration: nat,
    pub title: Seq<char>,
    pub command: Seq<char>,
}

impl View for Entry {
    type V = EntryView;

    open spec fn view(&self) -> EntryView {
        EntryView {
            start: self.timestamp,
            duration: self.duration_in_seconds as nat,
            title: self.window_title@,
            command: self.command_line@,
        }
    }
}

pub open spec fn entries_view(entries: Seq<Entry>) -> Seq<EntryView> {
    entries.map_values(|e: Entry| e@)
}

/// The entry that stands for "nothing recorded yet".
pub open spec fn sentinel(now: LocalTime) -> EntryView {
    EntryView { start: now, duration: 0, title: seq![], command: seq![] }
}

/// The compactor's state.
pub struct LoggerView {
    /// Seconds between samples.
    pub interval: nat,
    /// Samples after which the batch is flushed.
    pub max_entries: nat,
    /// Samples since the last flush.
    pub count: nat,
    /// The entry in progress; duration zero when nothing is in progress.
    pub current: EntryView,
    /// Finalized entries that wait to be written, oldest first.
    pub batch: Seq<EntryView>,
    /// The fields of the latest sample.
    pub last_title: Seq<char>,
    pub last_command: Seq<char>,
}

/// The flush threshold for a flush interval in minutes.
pub open spec fn flush_threshold(interval_in_seconds: nat, flush_interval_in_minutes: nat) -> nat {
    (flush_interval_in_minutes * 60) / interval_in_seconds
}

/// Records one sample: it starts the current entry, extends it, or finalizes
/// it into the batch and takes its place.
pub open spec fn record_step(v: LoggerView, now: LocalTime, title: Seq<char>, command: Seq<char>) -> LoggerView {
    let fresh = EntryView { start: now, duration: v.interval, title, command };
    let seen = LoggerView { count: v.count + 1, last_title: title, last_command: command, ..v };
    if v.current.duration == 0 {
        LoggerView { current: fresh, ..seen }
    } else if v.current.title == title && v.current.command == command {
        LoggerView {
            current: EntryView { duration: v.current.duration + v.interval, ..v.current },
            ..seen
        }
    } else {
        LoggerView { batch: v.batch.push(v.current), current: fresh, ..seen }
    }
}

/// What a flush writes: the batch, then the current entry.
pub open spec fn flushed(v: LoggerView) -> Seq<EntryView> {
    v.batch.push(v.current)
}

/// The state after a flush: empty batch, a zero-duration current entry.
pub open spec fn flush_step(v: LoggerView, now: LocalTime) -> LoggerView {
    LoggerView { count: 0, current: sentinel(now), batch: seq![], ..v }
}

/// One sample, then a flush if the threshold is reached: the new state and
/// what was written (nothing if there was no flush).
pub open spec fn add_step(v: LoggerView, now: LocalTime, title: Seq<char>, command: Seq<char>) -> (LoggerView, Seq<EntryView>) {
    let r = record_step(v, now, title, command);
    if r.count >= r.max_entries {
        (flush_step(r, now), flushed(r))
    } else {
        (r, seq![])
    }
}

/// The largest flush threshold times interval: a flush interval of
/// `u32::MAX` minutes.
pub open spec fn duration_bound() -> nat {
    60 * 0xFFFF_FFFF
}

/// The settings that `new` gives: a positive interval, and a threshold whose
/// entries' total duration is bounded.
pub open spec fn valid_settings(v: LoggerView) -> bool {
    &&& v.interval > 0
    &&& v.interval <= u32::MAX
    &&& v.max_entries * v.interval <= duration_bound()
}

/// Valid settings; fewer samples since the last flush than the threshold;
/// the entry in progress no longer than those samples.
pub open spec fn well_formed(v: LoggerView) -> bool {
    &&& valid_settings(v)
    &&& v.count == 0 || v.count < v.max_entries
    &&& v.current.duration <= v.count * v.interval
}

/// Compacts samples into entries; see the module documentation.
pub struct Logger {
    interval_in_seconds: u32,
    max_entries_before_flush: u64,
    count: u64,
    last_entry: Entry,
    last_window_title: String,
    last_command_line: String,
    entries: Vec<Entry>,
}

impl View for Logger {
    type V = LoggerView;

    closed spec fn view(&self) -> LoggerView {
        LoggerView {
            interval: self.interval_in_seconds as nat,
            max_entries: self.max_entries_before_flush as nat,
            count: self.count as nat,
            current: self.last_entry@,
            batch: entries_view(self.entries@),
            last_title: self.last_window_title@,
            last_command: self.last_command_line@,
        }
    }
}

fn empty_entry(now: LocalTime) -> (e: Entry)
    ensures
        e@ == sentinel(now),
{
    Entry {
        timestamp: now,
        duration_in_seconds: 0,
        window_title: String::new(),
        command_line: String::new(),
    }
}

impl Logger {
    /// A compactor for samples every `interval_in_seconds`, flushing every
    /// `flush_interval_in_minutes`; `now` stamps its zero-duration entry.
    pub fn new(interval_in_seconds: u32, flush_interval_in_minutes: u32, now: LocalTime) -> (r: Logger)
        requires
            interval_in_seconds > 0,
        ensures
            well_formed(r@),
            r@.interval == interval_in_seconds,
            r@.max_entries == flush_threshold(interval_in_seconds as nat, flush_interval_in_minutes as nat),
            r@.count == 0,
            r@.current == sentinel(now),
            r@.batch == Seq::<EntryView>::empty(),
            r@.last_title == Seq::<char>::empty(),
            r@.last_command == Seq::<char>::empty(),
    {
        let total: u64 = flush_interval_in_minutes as u64 * 60;
        let max_entries_before_flush = total / (interval_in_seconds as u64);
        proof {
            let i = interval_in_seconds as int;
            let t = total as int;
            let m = max_entries_before_flush as int;
            assert(m * i <= t) by (nonlinear_arith)
                requires
                    i > 0,
                    t >= 0,
                    m == t / i,
            ;
        }
        let r = Logger {
            interval_in_seconds,
            max_entries_before_flush,
            count: 0,
            last_entry: empty_entry(now),
            last_window_title: String::new(),
            last_command_line: String::new(),
            entries: Vec::new(),
        };
        proof {
            assert(r@.batch =~= Seq::<EntryView>::empty());
        }
        r
    }

    /// Records one sample taken at `now`; at the flush threshold the batch is
    /// flushed and returned, else nothing is returned.
    pub fn add_entry(&mut self, now: LocalTime, window_title: String, command_line: String) -> (written: Vec<Entry>)
        requires
            well_formed(old(self)@),
        ensures
            well_formed(final(self)@),
            (final(self)@, entries_view(written@)) == add_step(old(self)@, now, window_title@, command_line@),
    {
        self.record(now, window_title, command_line);
        if self.count >= self.max_entries_before_flush {
            self.flush(now)
        } else {
            let written: Vec<Entry> = Vec::new();
            proof {
                assert(entries_view(written@) =~= Seq::<EntryView>::empty());
            }
            written
        }
    }

    /// Records one sample, without flushing.
    fn record(&mut self, now: LocalTime, window_title: String, command_line: String)
        requires
            well_formed(old(self)@),
        ensures
            final(self)@ == record_step(old(self)@, now, window_title@, command_line@),
            valid_settings(final(self)@),
            final(self)@.count <= final(self)@.max_entries || final(self)@.count == 1,
            final(self)@.current.duration <= final(self)@.count * final(self)@.interval,
    {
        let ghost v = self@;
        proof {
            let c = v.count as int;
            let i = v.interval as int;
            let m = v.max_entries as int;
            assert((c + 1) * i == c * i + i) by (nonlinear_arith);
            if c < m {
                assert((c + 1) * i <= m * i) by (nonlinear_arith)
                    requires
                        c + 1 <= m,
                        i > 0,
                ;
            }
        }
        self.count = self.count + 1;
        self.last_window_title = window_title.clone();
        self.last_command_line = command_line.clone();
        if self.last_entry.duration_in_seconds == 0 {
            self.last_entry = Entry {
                timestamp: now,
                duration_in_seconds: self.interval_in_seconds as u64,
                window_title,
                command_line,
            };
        } else if self.last_entry.window_title == window_title && self.last_entry.command_line
            == command_line {
            self.last_entry.duration_in_seconds = self.last_entry.duration_in_seconds
                + self.interval_in_seconds as u64;
        } else {
            let mut fresh = Entry {
                timestamp: now,
                duration_in_seconds: self.interval_in_seconds as u64,
                window_title,
                command_line,
            };
            std::mem::swap(&mut self.last_entry, &mut fresh);
            self.entries.push(fresh);
            proof {
                assert(entries_view(self.entries@) =~= v.batch.push(v.current));
            }
        }
    }

    /// Finalizes the current entry into the batch, hands the batch back to be
    /// written, and starts over with an empty batch and a zero-duration entry
    /// stamped `now`.
    pub fn flush(&mut self, now: LocalTime) -> (written: Vec<Entry>)
        requires
            valid_settings(old(self)@),
        ensures
            well_formed(final(self)@),
            final(self)@ == flush_step(old(self)@, now),
            entries_view(written@) == flushed(old(self)@),
    {
        let ghost v = self@;
        let mut current = empty_entry(now);
        std::mem::swap(&mut self.last_entry, &mut current);
        let mut written: Vec<Entry> = Vec::new();
        std::mem::swap(&mut self.entries, &mut written);
        written.push(current);
        self.count = 0;
        proof {
            assert(entries_view(written@) =~= v.batch.push(v.current));
            assert(entries_view(self.entries@) =~= Seq::<EntryView>::empty());
        }
        written
    }

    /// The finalized entries that wait for the next flush, oldest first.
    pub fn pending_entries(&self) -> (r: &Vec<Entry>)
        ensures
            entries_view(r@) == self@.batch,
    {
        &self.entries
    }

    /// The entry in progress (duration zero when none is).
    pub fn current_entry(&self) -> (r: &Entry)
        ensures
            r@ == self@.current,
    {
        &self.last_entry
    }

    /// The window title and command line of the latest sample (empty before
    /// the first).
    pub fn get_last_entry(&self) -> (r: (String, String))
        ensures
            r.0@ == self@.last_title,
            r.1@ == self@.last_command,
    {
        (self.last_window_title.clone(), self.last_command_line.clone())
    }
}

/// A sink for samples that can tell the latest one back.
pub trait Log: Sized {
    /// Whether the sink can take a sample.
    spec fn ready(&self) -> bool;

    /// The title and command line of the latest sample.
    spec fn last_sample(&self) -> (Seq<char>, Seq<char>);

    /// Taking the sample (`now`, `title`, `command`) turns this sink into
    /// `next` and hands back `written` to be written.
    spec fn logged(
        &self,
        now: LocalTime,
        title: Seq<char>,
        command: Seq<char>,
        next: Self,
        written: Seq<EntryView>,
    ) -> bool;

    /// Takes a sample taken at `now`; returns the entries that are due to be
    /// written.
    fn log(&mut self, now: LocalTime, window_title: String, command_line: String) -> (written: Vec<Entry>)
        requires
            old(self).ready(),
        ensures
            final(self).ready(),
            final(self).last_sample() == (window_title@, command_line@),
            old(self).logged(now, window_title@, command_line@, *final(self), entries_view(written@)),
    ;

    fn get_last_entry(&self) -> (r: (String, String))
        ensures
            (r.0@, r.1@) == self.last_sample(),
    ;
}

impl Log for Logger {
    open spec fn ready(&self) -> bool {
        well_formed(self@)
    }

    open spec fn last_sample(&self) -> (Seq<char>, Seq<char>) {
        (self@.last_title, self@.last_command)
    }

    /// Compaction as `add_entry` does it.
    open spec fn logged(
        &self,
        now: LocalTime,
        title: Seq<char>,
        command: Seq<char>,
        next: Self,
        written: Seq<EntryView>,
    ) -> bool {
        (next@, written) == add_step(self@, now, title, command)
    }

    fn log(&mut self, now: LocalTime, window_title: String, command_line: String) -> (written: Vec<Entry>) {
        self.add_entry(now, window_title, command_line)
    }

    fn get_last_entry(&self) -> (r: (String, String)) {
        Logger::get_last_entry(self)
    }
}

/// One sample as the laws below see it.
pub struct Sample {
    pub time: LocalTime,
    pub title: Seq<char>,
    pub command: Seq<char>,
}

/// The state after feeding `samples` to `add_entry`, in order.
pub open spec fn feed(v: LoggerView, samples: Seq<Sample>) -> LoggerView
    decreases samples.len(),
{
    if samples.len() == 0 {
        v
    } else {
        let s = samples.last();
        add_step(feed(v, samples.drop_last()), s.time, s.title, s.command).0
    }
}

/// A maximal run of equal samples: where it starts, how many samples, and
/// their fields.
pub struct Run {
    pub start: LocalTime,
    pub count: nat,
    pub title: Seq<char>,
    pub command: Seq<char>,
}

/// The maximal runs of equal consecutive samples, in arrival order.
pub open spec fn runs(samples: Seq<Sample>) -> Seq<Run>
    decreases samples.len(),
{
    if samples.len() == 0 {
        seq![]
    } else {
        let prev = runs(samples.drop_last());
        let s = samples.last();
        if prev.len() > 0 && prev.last().title == s.title && prev.last().command == s.command {
            prev.update(prev.len() - 1, Run { count: prev.last().count + 1, ..prev.last() })
        } else {
            prev.push(Run { start: s.time, count: 1, title: s.title, command: s.command })
        }
    }
}

/// The entry that a run becomes at `interval` seconds per sample.
pub open spec fn run_entry(run: Run, interval: nat) -> EntryView {
    EntryView {
        start: run.start,
        duration: run.count * interval,
        title: run.title,
        command: run.command,
    }
}

pub open spec fn run_entries(runs: Seq<Run>, interval: nat) -> Seq<EntryView> {
    runs.map_values(|run: Run| run_entry(run, interval))
}

/// Neighbouring runs differ in title or command line, and no run is empty.
pub open spec fn runs_are_maximal(runs: Seq<Run>) -> bool {
    &&& forall|i: int| 0 <= i < runs.len() ==> runs[i].count > 0
    &&& forall|i: int|
        #![trigger runs[i], runs[i + 1]]
        0 <= i < runs.len() - 1 ==> !(runs[i].title == runs[i + 1].title && runs[i].command
            == runs[i + 1].command)
}

proof fn lemma_runs_maximal(samples: Seq<Sample>)
    ensures
        runs_are_maximal(runs(samples)),
        samples.len() > 0 ==> runs(samples).len() > 0,
    decreases samples.len(),
{
    if samples.len() > 0 {
        lemma_runs_maximal(samples.drop_last());
    }
}

/// Below the flush threshold no flush happens: each sample only counts and
/// is recorded.
proof fn lemma_feed_counts(v: LoggerView, samples: Seq<Sample>)
    requires
        v.count + samples.len() < v.max_entries,
    ensures
        feed(v, samples).count == v.count + samples.len(),
        feed(v, samples).interval == v.interval,
        feed(v, samples).max_entries == v.max_entries,
    decreases samples.len(),
{
    if samples.len() > 0 {
        lemma_feed_counts(v, samples.drop_last());
    }
}

/// Samples that all carry the same title and command line, fed to a
/// compactor with nothing in progress and no flush on the way, make one
/// entry: it starts at the first sample, lasts the interval times their
/// number, and the batch is left as it was.
pub proof fn lemma_identical_samples_make_one_entry(
    v: LoggerView,
    samples: Seq<Sample>,
    title: Seq<char>,
    command: Seq<char>,
)
    requires
        v.interval > 0,
        v.current.duration == 0,
        samples.len() > 0,
        v.count + samples.len() < v.max_entries,
        forall|i: int| 0 <= i < samples.len() ==> samples[i].title == title,
        forall|i: int| 0 <= i < samples.len() ==> samples[i].command == command,
    ensures
        feed(v, samples).batch == v.batch,
        feed(v, samples).current == (EntryView {
            start: samples[0].time,
            duration: samples.len() * v.interval,
            title,
            command,
        }),
    decreases samples.len(),
{
    let prefix = samples.drop_last();
    lemma_feed_counts(v, samples);
    lemma_feed_counts(v, prefix);
    let i = v.interval;
    assert(samples.last() == samples[samples.len() - 1]);
    if prefix.len() > 0 {
        lemma_identical_samples_make_one_entry(v, prefix, title, command);
        let n = prefix.len();
        assert(prefix[0] == samples[0]);
        assert(n * i > 0) by (nonlinear_arith)
            requires
                n > 0,
                i > 0,
        ;
        assert(n * i + i == (n + 1) * i) by (nonlinear_arith);
        assert(samples.len() == n + 1);
    } else {
        assert(feed(v, prefix) == v);
        assert(samples.len() == 1);
        assert(1 * i == i);
    }
}

/// Fed to a compactor with nothing in progress and no flush on the way,
/// samples become one entry per maximal run of equal samples, in arrival
/// order: the batch gains every run but the last, which is in progress.
pub proof fn lemma_one_entry_per_run(v: LoggerView, samples: Seq<Sample>)
    requires
        v.interval > 0,
        v.current.duration == 0,
        samples.len() > 0,
        v.count + samples.len() < v.max_entries,
    ensures
        runs_are_maximal(runs(samples)),
        feed(v, samples).batch.push(feed(v, samples).current) == v.batch + run_entries(
            runs(samples),
            v.interval,
        ),
    decreases samples.len(),
{
    lemma_runs_maximal(samples);
    let prefix = samples.drop_last();
    let s = samples.last();
    lemma_feed_counts(v, samples);
    lemma_feed_counts(v, prefix);
    let i = v.interval;
    if prefix.len() == 0 {
        assert(feed(v, prefix) == v);
        assert(runs(prefix) =~= Seq::<Run>::empty());
        assert(1 * i == i);
        assert(feed(v, samples).batch.push(feed(v, samples).current) =~= v.batch + run_entries(
            runs(samples),
            i,
        ));
    } else {
        lemma_one_entry_per_run(v, prefix);
        lemma_runs_maximal(prefix);
        let r = feed(v, prefix);
        let prev = runs(prefix);
        let k = prev.len() - 1;
        let before = v.batch + run_entries(prev, i);
        assert(r.batch.push(r.current) == before);
        assert(r.current == before.last());
        assert(before.last() == run_entry(prev.last(), i));
        assert(prev.last().count > 0);
        let c = prev.last().count;
        assert(c * i > 0) by (nonlinear_arith)
            requires
                c > 0,
                i > 0,
        ;
        assert(c * i + i == (c + 1) * i) by (nonlinear_arith);
        if prev.last().title == s.title && prev.last().command == s.command {
            assert(r.batch =~= before.drop_last());
            assert(feed(v, samples).batch.push(feed(v, samples).current) =~= v.batch
                + run_entries(runs(samples), i));
        } else {
            assert(feed(v, samples).batch =~= before);
            assert(feed(v, samples).batch.push(feed(v, samples).current) =~= v.batch
                + run_entries(runs(samples), i));
        }
    }
}

/// After a sample is added, the last entry reads back that sample's title and
/// command line, whether or not it finalized an entry or caused a flush.
pub proof fn lemma_last_entry_is_latest_sample(
    v: LoggerView,
    now: LocalTime,
    title: Seq<char>,
    command: Seq<char>,
)
    ensures
        add_step(v, now, title, command).0.last_title == title,
        add_step(v, now, title, command).0.last_command == command,
{
}

/// A flush writes the whole batch and then the entry in progress, and leaves
/// an empty batch and one zero-duration entry in progress.
pub proof fn lemma_flush_clears_batch(v: LoggerView, now: LocalTime)
    ensures
        flush_step(v, now).batch.len() == 0,
        flush_step(v, now).current.duration == 0,
        flushed(v).len() == v.batch.len() + 1,
        flushed(v).take(v.batch.len() as int) == v.batch,
        flushed(v).last() == v.current,
{
    assert(flushed(v).take(v.batch.len() as int) =~= v.batch);
}

/// The character of a decimal digit.
pub open spec fn digit_char(d: nat) -> char {
    (48 + d) as char
}

/// The decimal digits of `n`, without leading zeros.
pub open spec fn decimal(n: nat) -> Seq<char>
    decreases n,
{
    if n < 10 {
        seq![digit_char(n)]
    } else {
        decimal(n / 10).push(digit_char(n % 10))
    }
}

pub open spec fn comma() -> Seq<char> {
    seq![',', ' ']
}

/// A log line: `Y-M-D H:M:S, duration, command line, window title`, numbers
/// in decimal without padding, ended by a newline. Commas inside the fields
/// are written as they are.
pub open spec fn log_line_of(e: EntryView) -> Seq<char> {
    decimal(e.start.year as nat) + seq!['-'] + decimal(e.start.month as nat) + seq!['-']
        + decimal(e.start.day as nat) + seq![' '] + decimal(e.start.hour as nat) + seq![':']
        + decimal(e.start.minute as nat) + seq![':'] + decimal(e.start.second as nat) + comma()
        + decimal(e.duration) + comma() + e.command + comma() + e.title + seq!['\n']
}

fn digit_str(d: u64) -> (s: &'static str)
    requires
        d < 10,
    ensures
        s@ == seq![digit_char(d as nat)],
{
    proof {
        reveal_strlit("0");
        reveal_strlit("1");
        reveal_strlit("2");
        reveal_strlit("3");
        reveal_strlit("4");
        reveal_strlit("5");
        reveal_strlit("6");
        reveal_strlit("7");
        reveal_strlit("8");
        reveal_strlit("9");
    }
    if d == 0 {
        "0"
    } else if d == 1 {
        "1"
    } else if d == 2 {
        "2"
    } else if d == 3 {
        "3"
    } else if d == 4 {
        "4"
    } else if d == 5 {
        "5"
    } else if d == 6 {
        "6"
    } else if d == 7 {
        "7"
    } else if d == 8 {
        "8"
    } else {
        "9"
    }
}

fn push_decimal(out: &mut String, n: u64)
    ensures
        final(out)@ == old(out)@ + decimal(n as nat),
    decreases n,
{
    if n >= 10 {
        push_decimal(out, n / 10);
    }
    out.append(digit_str(n % 10));
    proof {
        if n >= 10 {
            assert(old(out)@ + decimal(n as nat) =~= old(out)@ + decimal((n / 10) as nat) + seq![
                digit_char((n % 10) as nat),
            ]);
        } else {
            assert(old(out)@ + decimal(n as nat) =~= old(out)@ + seq![digit_char(n as nat)]);
        }
    }
}

/// The line that the log holds for `entry`.
pub fn log_line(entry: &Entry) -> (line: String)
    ensures
        line@ == log_line_of(entry@),
{
    proof {
        reveal_strlit("-");
        reveal_strlit(" ");
        reveal_strlit(":");
        reveal_strlit(", ");
        reveal_strlit("\n");
    }
    let t = entry.timestamp;
    let mut line = String::new();
    push_decimal(&mut line, t.year as u64);
    line.append("-");
    push_decimal(&mut line, t.month as u64);
    line.append("-");
    push_decimal(&mut line, t.day as u64);
    line.append(" ");
    push_decimal(&mut line, t.hour as u64);
    line.append(":");
    push_decimal(&mut line, t.minute as u64);
    line.append(":");
    push_decimal(&mut line, t.second as u64);
    line.append(", ");
    push_decimal(&mut line, entry.duration_in_seconds);
    line.append(", ");
    line.append(entry.command_line.as_str());
    line.append(", ");
    line.append(entry.window_title.as_str());
    line.append("\n");
    proof {
        assert(line@ =~= log_line_of(entry@));
    }
    line
}

} // verus!
