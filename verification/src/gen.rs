//! The rotation driver and line synthesizer: filling one rotation file
//! with entries, and producing the whole run of rotation files, while
//! the timestamp cursor moves forward across all of them.

use vstd::prelude::*;

use crate::config::Config;
use crate::digits::{spec_digits, u64_to_string};
use crate::template::{render_line, spec_line, TEMPLATE_COUNT};
use crate::timefmt::TS_MS_LIMIT;
use vstd::arithmetic::mul::{lemma_mul_inequality, lemma_mul_nonnegative, lemma_mul_upper_bound};

verus! {

/// One synthetic log entry: the instant it carries in milliseconds
/// since the Unix epoch, the template drawn for it, its global line
/// counter, and the rendered text.
pub struct Entry {
    pub at_ms: i64,
    pub template: u64,
    pub counter: u64,
    pub text: String,
}

/// One rotation file: its name, and its entries in the order written.
pub struct LogFile {
    pub name: String,
    pub entries: Vec<Entry>,
}

/// The name of the rotation file with index `n`: the base name for
/// index zero, the base name followed by a dot and the index
/// otherwise.
pub open spec fn spec_file_name(n: nat) -> Seq<char> {
    if n == 0 {
        "testlog.log"@
    } else {
        "testlog.log."@ + spec_digits(n)
    }
}

/// Builds the name of the rotation file with index `n`, exactly as
/// `spec_file_name` describes.
pub fn file_name(n: u64) -> (r: String)
    ensures
        r@ == spec_file_name(n as nat),
{
    if n == 0 {
        "testlog.log".to_owned()
    } else {
        let mut s = "testlog.log.".to_owned();
        let digits = u64_to_string(n);
        s.append(digits.as_str());
        assert(s@ =~= spec_file_name(n as nat));
        s
    }
}

/// What holds of every entry of the rotation with index `count`: a
/// known template, the counter the rotation index and position give
/// it, and text that is exactly the rendered template.
pub open spec fn entry_wf(e: Entry, count: int, lines: int, j: int) -> bool {
    &&& e.template < TEMPLATE_COUNT
    &&& e.counter == count * lines + j
    &&& e.text@ == spec_line(e.at_ms as int, e.template as int, e.counter as nat)
}

/// What holds of the entry sequence of one rotation file: every entry
/// well formed, consecutive instants moving forward by less than
/// `maxgap` milliseconds, and every entry after the first written no
/// later than the window end.
pub open spec fn entries_wf(
    es: Seq<Entry>,
    count: int,
    lines: int,
    maxgap: int,
    end_ms: int,
) -> bool {
    &&& forall|j: int| 0 <= j < es.len() ==> entry_wf(#[trigger] es[j], count, lines, j)
    &&& forall|j: int|
        1 <= j < es.len() ==> 0 <= #[trigger] es[j].at_ms - es[j - 1].at_ms < maxgap
            && es[j].at_ms <= end_ms
}

/// The later of two instants.
pub open spec fn ms_max(a: int, b: int) -> int {
    if a > b {
        a
    } else {
        b
    }
}

/// Fills one rotation file: starting the cursor at `start_ms`, emits
/// up to `lines` entries for the rotation with index `count`, each at
/// the cursor's instant, advancing the cursor by a random gap in
/// `[0, maxgap)` milliseconds after each entry and stopping once the
/// cursor passes `end_ms`. Returns the entries and the final cursor.
#[verifier::loop_isolation(false)]
pub fn fill_file(lines: u64, count: u64, maxgap: u64, end_ms: i64, start_ms: i64) -> (r: (
    Vec<Entry>,
    i64,
))
    requires
        maxgap >= 1,
        maxgap as int <= i64::MAX - TS_MS_LIMIT,
        count * lines + lines <= u64::MAX,
        -TS_MS_LIMIT <= start_ms <= TS_MS_LIMIT,
        -TS_MS_LIMIT <= end_ms <= TS_MS_LIMIT,
    ensures
        entries_wf(r.0@, count as int, lines as int, maxgap as int, end_ms as int),
        r.0.len() <= lines,
        lines > 0 ==> r.0.len() >= 1,
        r.0.len() > 0 ==> r.0[0].at_ms == start_ms,
        r.0.len() < lines ==> r.1 > end_ms,
        r.0.len() == 0 ==> r.1 == start_ms,
        r.0.len() > 0 ==> 0 <= r.1 - r.0@.last().at_ms < maxgap,
        r.1 >= start_ms,
        r.1 <= ms_max(start_ms as int, end_ms as int) + maxgap,
        start_ms > end_ms ==> r.0.len() <= 1,
        forall|j: int| 0 <= j < r.0.len() ==> start_ms <= #[trigger] r.0[j].at_ms,
{
    let mut out: Vec<Entry> = Vec::new();
    let mut cur: i64 = start_ms;
    let mut i: u64 = 0;
    let mut stopped = false;
    while i < lines && !stopped
        invariant
            i <= lines,
            out.len() == i as int,
            entries_wf(out@, count as int, lines as int, maxgap as int, end_ms as int),
            out.len() > 0 ==> out[0].at_ms == start_ms,
            out.len() == 0 ==> cur == start_ms && !stopped,
            out.len() > 0 ==> 0 <= cur - out@.last().at_ms < maxgap,
            stopped ==> cur > end_ms,
            !stopped ==> out.len() == 0 || cur <= end_ms,
            cur >= start_ms,
            cur <= ms_max(start_ms as int, end_ms as int) + maxgap,
            start_ms > end_ms ==> out.len() <= 1,
            forall|j: int| 0 <= j < out.len() ==> start_ms <= #[trigger] out[j].at_ms,
        decreases lines - i,
    {
        let draw = rand::random::<u64>();
        let t = draw % TEMPLATE_COUNT;
        let counter = count * lines + i;
        let text = render_line(cur, t, counter);
        out.push(Entry { at_ms: cur, template: t, counter, text });
        let gap_draw = rand::random::<u64>();
        let gap = gap_draw % maxgap;
        cur = cur + (gap as i64);
        if cur > end_ms {
            stopped = true;
        }
        i = i + 1;
    }
    (out, cur)
}

/// The machine bounds a configuration must meet before a run is
/// generated: a positive gap bound, a window that does not end before
/// it begins, instants that stay inside the formatter's range even
/// after every possible gap, counters that fit in a machine word, and
/// a file count a vector can hold. Values outside these bounds would
/// overflow an instant or a counter somewhere in the run.
pub open spec fn spec_config_in_range(cfg: Config) -> bool {
    &&& cfg.maxgap_ms >= 1
    &&& cfg.maxgap_ms as int <= i64::MAX - TS_MS_LIMIT
    &&& cfg.begin_s <= cfg.end_s
    &&& -TS_MS_LIMIT as int <= cfg.begin_s as int * 1000
    &&& cfg.end_s as int * 1000 + (cfg.rotations as int + 1) * (cfg.maxgap_ms as int)
        <= TS_MS_LIMIT as int
    &&& (cfg.rotations as int + 1) * (cfg.lines as int) <= u64::MAX as int
    &&& cfg.rotations as int + 1 <= usize::MAX as int
}

/// Decides `spec_config_in_range`, so a caller can test the machine
/// bounds before asking for a run.
pub fn config_in_range(cfg: &Config) -> (b: bool)
    ensures
        b == spec_config_in_range(*cfg),
{
    proof {
        lemma_mul_upper_bound(
            cfg.rotations as int + 1,
            0x10000000000000000,
            cfg.maxgap_ms as int,
            0xffffffffffffffff,
        );
        lemma_mul_upper_bound(
            cfg.rotations as int + 1,
            0x10000000000000000,
            cfg.lines as int,
            0xffffffffffffffff,
        );
    }
    if cfg.maxgap_ms < 1 {
        return false;
    }
    if cfg.maxgap_ms > (i64::MAX - TS_MS_LIMIT) as u64 {
        return false;
    }
    if cfg.begin_s > cfg.end_s {
        return false;
    }
    let begin_ms_wide: i128 = (cfg.begin_s as i128) * 1000;
    if begin_ms_wide < -(TS_MS_LIMIT as i128) {
        return false;
    }
    let end_ms_wide: i128 = (cfg.end_s as i128) * 1000;
    let slack: i128 = (TS_MS_LIMIT as i128) - end_ms_wide;
    if slack < 0 {
        return false;
    }
    let rot1: u128 = (cfg.rotations as u128) + 1;
    let gap_total: u128 = rot1 * (cfg.maxgap_ms as u128);
    if gap_total > slack as u128 {
        return false;
    }
    let counter_cap: u128 = rot1 * (cfg.lines as u128);
    if counter_cap > u64::MAX as u128 {
        return false;
    }
    if rot1 > usize::MAX as u128 {
        return false;
    }
    true
}

/// Generates the whole run: one file per rotation index, from the
/// highest index down to the base file, the timestamp cursor starting
/// at the window begin and moving forward across all of them.
#[verifier::loop_isolation(false)]
pub fn generate(cfg: &Config) -> (r: Vec<LogFile>)
    requires
        spec_config_in_range(*cfg),
    ensures
        r.len() == cfg.rotations as int + 1,
        forall|k: int|
            0 <= k < r.len() ==> #[trigger] r[k].name@ == spec_file_name(
                (cfg.rotations as int - k) as nat,
            ),
        forall|k: int|
            0 <= k < r.len() ==> entries_wf(
                #[trigger] r[k].entries@,
                cfg.rotations as int - k,
                cfg.lines as int,
                cfg.maxgap_ms as int,
                cfg.end_s as int * 1000,
            ),
        forall|k: int| 0 <= k < r.len() ==> #[trigger] r[k].entries.len() <= cfg.lines,
        cfg.lines > 0 ==> forall|k: int| 0 <= k < r.len() ==> #[trigger] r[k].entries.len() >= 1,
        cfg.lines == 0 ==> forall|k: int| 0 <= k < r.len() ==> #[trigger] r[k].entries.len() == 0,
        cfg.lines > 0 ==> r[0].entries[0].at_ms == cfg.begin_s as int * 1000,
        forall|k: int|
            1 <= k < r.len() && cfg.lines > 0 ==> 0 <= #[trigger] r[k].entries[0].at_ms - r[k
                - 1].entries@.last().at_ms < cfg.maxgap_ms,
        forall|k1: int, k2: int|
            #![trigger r[k1].entries, r[k2].entries]
            0 <= k1 < k2 < r.len() && r[k1].entries.len() < cfg.lines ==> r[k2].entries.len()
                <= 1,
        forall|k: int, j: int|
            0 <= k < r.len() && 0 <= j < r[k].entries.len() ==> cfg.begin_s as int * 1000
                <= #[trigger] r[k].entries[j].at_ms,
        forall|k: int|
            0 <= k < r.len() && #[trigger] r[k].entries.len() > 1 ==> r[k].entries[0].at_ms
                <= cfg.end_s as int * 1000,
{
    proof {
        lemma_mul_nonnegative(cfg.rotations as int + 1, cfg.maxgap_ms as int);
        lemma_mul_nonnegative(cfg.rotations as int + 1, cfg.lines as int);
    }
    let begin_ms: i64 = cfg.begin_s * 1000;
    let end_ms: i64 = cfg.end_s * 1000;
    let n: u64 = cfg.rotations + 1;
    let mut out: Vec<LogFile> = Vec::new();
    let mut cur: i64 = begin_ms;
    let mut k: u64 = 0;
    while k < n
        invariant
            k <= n,
            out.len() == k as int,
            k == 0 ==> cur == begin_ms,
            cur >= begin_ms,
            cur as int <= end_ms as int + (k as int) * (cfg.maxgap_ms as int),
            forall|x: int|
                0 <= x < k as int ==> #[trigger] out[x].name@ == spec_file_name(
                    (cfg.rotations as int - x) as nat,
                ),
            forall|x: int|
                0 <= x < k as int ==> entries_wf(
                    #[trigger] out[x].entries@,
                    cfg.rotations as int - x,
                    cfg.lines as int,
                    cfg.maxgap_ms as int,
                    end_ms as int,
                ),
            forall|x: int| 0 <= x < k as int ==> #[trigger] out[x].entries.len() <= cfg.lines,
            cfg.lines > 0 ==> forall|x: int|
                0 <= x < k as int ==> #[trigger] out[x].entries.len() >= 1,
            cfg.lines == 0 ==> cur == begin_ms,
            cfg.lines == 0 ==> forall|x: int|
                0 <= x < k as int ==> #[trigger] out[x].entries.len() == 0,
            cfg.lines > 0 && k > 0 ==> out[0].entries[0].at_ms == begin_ms,
            k > 0 && cfg.lines > 0 ==> 0 <= cur as int - out[k as int
                - 1].entries@.last().at_ms < cfg.maxgap_ms,
            forall|x: int|
                0 <= x < k as int && #[trigger] out[x].entries.len() < cfg.lines ==> cur > end_ms,
            forall|x: int|
                1 <= x < k as int && cfg.lines > 0 ==> 0 <= #[trigger] out[x].entries[0].at_ms
                    - out[x - 1].entries@.last().at_ms < cfg.maxgap_ms,
            forall|x1: int, x2: int|
                #![trigger out[x1].entries, out[x2].entries]
                0 <= x1 < x2 < k as int && out[x1].entries.len() < cfg.lines
                    ==> out[x2].entries.len() <= 1,
            forall|x: int, j: int|
                0 <= x < k as int && 0 <= j < out[x].entries.len() ==> begin_ms
                    <= #[trigger] out[x].entries[j].at_ms,
            forall|x: int|
                0 <= x < k as int && #[trigger] out[x].entries.len() > 1 ==> out[x].entries[0].at_ms
                    <= end_ms,
        decreases n - k,
    {
        let count = cfg.rotations - k;
        let name = file_name(count);
        proof {
            lemma_mul_inequality(k as int, cfg.rotations as int + 1, cfg.maxgap_ms as int);
            assert((count as int) * (cfg.lines as int) + cfg.lines as int <= (cfg.rotations as int
                + 1) * (cfg.lines as int)) by (nonlinear_arith)
                requires
                    count as int + 1 <= cfg.rotations as int + 1,
                    0 <= cfg.lines as int,
                    0 <= count as int,
            ;
        }
        let (entries, new_cur) = fill_file(cfg.lines, count, cfg.maxgap_ms, end_ms, cur);
        proof {
            assert((k as int + 1) * (cfg.maxgap_ms as int) == (k as int) * (cfg.maxgap_ms as int)
                + cfg.maxgap_ms as int) by (nonlinear_arith);
        }
        out.push(LogFile { name, entries });
        cur = new_cur;
        k = k + 1;
    }
    out
}

/// Law: a run whose files each move forward within themselves, and
/// whose file boundaries move forward too, forms one non-decreasing
/// timeline when the files are read in generation order, highest
/// rotation index first: no entry precedes an earlier one, whether the
/// earlier one stands in the same file or in an earlier file. The
/// adjacency facts required here are exactly what `generate` ensures
/// of a run with at least one line per file.
pub proof fn lemma_timeline_monotone(files: Seq<LogFile>, k1: int, j1: int, k2: int, j2: int)
    requires
        forall|k: int, j: int|
            0 <= k < files.len() && 1 <= j < files[k].entries@.len()
                ==> #[trigger] files[k].entries@[j].at_ms >= files[k].entries@[j - 1].at_ms,
        forall|k: int|
            1 <= k < files.len() ==> #[trigger] files[k].entries@[0].at_ms >= files[k
                - 1].entries@.last().at_ms,
        forall|k: int| 0 <= k < files.len() ==> #[trigger] files[k].entries@.len() > 0,
        0 <= k1 <= k2 < files.len(),
        0 <= j1 < files[k1].entries@.len(),
        0 <= j2 < files[k2].entries@.len(),
        k1 < k2 || j1 <= j2,
    ensures
        files[k1].entries@[j1].at_ms <= files[k2].entries@[j2].at_ms,
    decreases k2 - k1, j2,
{
    if k1 == k2 {
        if j1 < j2 {
            lemma_timeline_monotone(files, k1, j1, k2, j2 - 1);
        }
    } else {
        if j2 > 0 {
            lemma_timeline_monotone(files, k1, j1, k2, 0);
            lemma_timeline_monotone(files, k2, 0, k2, j2);
        } else {
            lemma_timeline_monotone(files, k1, j1, k2 - 1, files[k2 - 1].entries@.len() - 1);
        }
    }
}

} // verus!
