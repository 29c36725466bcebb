//! Per-tick bookkeeping of the monitor window: source discovery passes, the
//! realtime metadata line and the stall indicator.

use vstd::prelude::*;

use crate::monitor::{format_log_line, sources_status};
use crate::text::{decimal, owned, text_eq};

verus! {

/// Idle time after which the source list is refreshed in the background.
pub const AUTO_REFRESH_MS: u64 = 3000;

/// State of the background source discovery.
#[derive(Debug, Clone, Copy, PartialEq, Eq, Structural)]
pub struct DiscoveryPoll {
    /// A pass is running.
    pub discovering: bool,
    /// The running pass leaves the status line alone.
    pub silent: bool,
}

/// What polling the running pass found.
#[derive(Debug, Clone)]
pub enum DiscoveryOutcome {
    /// The pass finished with this many sources.
    Found(usize),
    /// The pass failed with this message.
    Failed(String),
    /// The pass is still running.
    Pending,
    /// The pass ended without an answer.
    Ended,
}

/// Whether the background refresh is due: no pass is running and the last
/// one started more than three seconds ago.
pub fn should_auto_refresh(discovering: bool, since_last_ms: u64) -> (r: bool)
    ensures
        r == (!discovering && since_last_ms > AUTO_REFRESH_MS),
{
    !discovering && since_last_ms > AUTO_REFRESH_MS
}

impl DiscoveryPoll {
    pub fn new() -> (r: Self)
        ensures
            !r.discovering,
            !r.silent,
    {
        DiscoveryPoll { discovering: false, silent: false }
    }

    /// Start a pass unless one is running; returns whether the caller is to
    /// start it. A pass that is not silent shows `refreshing` in the status.
    pub fn request_refresh(&mut self, silent: bool, status: &mut String, refreshing: &str) -> (r:
        bool)
        ensures
            r == !old(self).discovering,
            r ==> final(self).discovering && final(self).silent == silent,
            !r ==> *final(self) == *old(self),
            final(status)@ == if r && !silent {
                refreshing@
            } else {
                old(status)@
            },
    {
        if self.discovering {
            return false;
        }
        self.discovering = true;
        self.silent = silent;
        if !silent {
            *status = owned(refreshing);
        }
        true
    }

    /// Take what polling the running pass found. A finished pass (found,
    /// failed or ended) stops; unless it was silent the status line then
    /// says how many sources there are (`none_text` for none), the error,
    /// or that the task ended.
    pub fn take_result(&mut self, outcome: DiscoveryOutcome, status: &mut String, none_text: &str)
        ensures
            final(self).silent == old(self).silent,
            final(self).discovering == (old(self).discovering && outcome is Pending),
            final(status)@ == if !old(self).discovering || old(self).silent {
                old(status)@
            } else {
                match outcome {
                    DiscoveryOutcome::Found(n) => if n == 0 {
                        none_text@
                    } else {
                        decimal(n as nat) + " source(s)"@
                    },
                    DiscoveryOutcome::Failed(m) => m@,
                    DiscoveryOutcome::Pending => old(status)@,
                    DiscoveryOutcome::Ended => "discovery task ended"@,
                }
            },
    {
        if !self.discovering {
            return;
        }
        match outcome {
            DiscoveryOutcome::Found(n) => {
                if !self.silent {
                    *status = sources_status(n, none_text);
                }
                self.discovering = false;
            },
            DiscoveryOutcome::Failed(m) => {
                if !self.silent {
                    *status = m;
                }
                self.discovering = false;
            },
            DiscoveryOutcome::Pending => {},
            DiscoveryOutcome::Ended => {
                if !self.silent {
                    *status = owned("discovery task ended");
                }
                self.discovering = false;
            },
        }
    }
}

/// The first of `urls` equal to `url`.
pub fn find_source(urls: &Vec<String>, url: &str) -> (r: Option<usize>)
    ensures
        match r {
            Some(i) => i < urls@.len() && urls@[i as int]@ == url@ && forall|j: int|
                0 <= j < i ==> urls@[j]@ != url@,
            None => forall|j: int| 0 <= j < urls@.len() ==> urls@[j]@ != url@,
        },
{
    let mut i: usize = 0;
    while i < urls.len()
        invariant
            i <= urls@.len(),
            forall|j: int| 0 <= j < i ==> urls@[j]@ != url@,
        decreases urls.len() - i,
    {
        if text_eq(urls[i].as_str(), url) {
            return Some(i);
        }
        i = i + 1;
    }
    None
}

/// A metadata entry as the receive worker reports it.
#[derive(Debug, Clone)]
pub struct LogEntry {
    pub unix_ms: u64,
    pub kind: String,
    pub text: String,
}

/// The largest `unix_ms` among `start` and the entries.
pub open spec fn latest_ms(start: u64, entries: Seq<LogEntry>) -> u64
    decreases entries.len(),
{
    if entries.len() == 0 {
        start
    } else {
        let m = latest_ms(start, entries.drop_last());
        if entries.last().unix_ms > m {
            entries.last().unix_ms
        } else {
            m
        }
    }
}

pub open spec fn log_line_view(e: LogEntry) -> Seq<char> {
    "["@ + decimal((e.unix_ms % 100_000) as nat) + "] "@ + e.kind@ + ": "@ + e.text@
}

/// Take new metadata entries: the log keeps only the line of the newest
/// entry (realtime), and `last_ms` follows the latest time seen.
pub fn ingest_log_entries(last_ms: &mut u64, lines: &mut Vec<String>, entries: &Vec<LogEntry>)
    ensures
        *final(last_ms) == latest_ms(*old(last_ms), entries@),
        entries@.len() == 0 ==> final(lines)@ == old(lines)@,
        entries@.len() > 0 ==> final(lines)@.len() == 1 && final(lines)@[0]@ == log_line_view(
            entries@.last(),
        ),
{
    let ghost start = *last_ms;
    let mut i: usize = 0;
    while i < entries.len()
        invariant
            i <= entries@.len(),
            *last_ms == latest_ms(start, entries@.take(i as int)),
            i == 0 ==> lines@ == old(lines)@,
            i > 0 ==> lines@.len() == 1 && lines@[0]@ == log_line_view(entries@[i - 1]),
        decreases entries.len() - i,
    {
        let e = &entries[i];
        assert(entries@.take(i + 1).drop_last() =~= entries@.take(i as int));
        if e.unix_ms > *last_ms {
            *last_ms = e.unix_ms;
        }
        let line = format_log_line(e.unix_ms, e.kind.as_str(), e.text.as_str());
        lines.clear();
        lines.push(line);
        i = i + 1;
    }
    assert(entries@.take(entries@.len() as int) =~= entries@);
}

/// Whether frames are arriving, as the stall detector reports it.
#[derive(Debug, Clone, Copy, PartialEq, Eq, Structural)]
pub enum StallState {
    Waiting,
    Live,
    Stalled,
}

/// The stall indicator: `waiting` or `stalled` in the UI language, or `LIVE`.
pub fn stall_label(state: StallState, waiting: &str, stalled: &str) -> (r: String)
    ensures
        r@ == match state {
            StallState::Waiting => waiting@,
            StallState::Live => "LIVE"@,
            StallState::Stalled => stalled@,
        },
{
    match state {
        StallState::Waiting => owned(waiting),
        StallState::Live => owned("LIVE"),
        StallState::Stalled => owned(stalled),
    }
}

/// Bytes of a BGRA picture of `width`×`height`, saturating at `usize::MAX`.
pub open spec fn bgra_bytes(width: u32, height: u32) -> int {
    if width * height * 4 > usize::MAX {
        usize::MAX as int
    } else {
        width * height * 4
    }
}

/// Whether a received BGRA frame can be shown, and how many of its bytes
/// make the picture: an empty size or a buffer shorter than the size needs
/// is skipped (`None`).
pub fn usable_frame_len(width: u32, height: u32, len: usize) -> (r: Option<usize>)
    ensures
        match r {
            Some(n) => width > 0 && height > 0 && n == bgra_bytes(width, height) && len >= n,
            None => width == 0 || height == 0 || len < bgra_bytes(width, height),
        },
{
    if width == 0 || height == 0 {
        return None;
    }
    let w: u128 = width as u128;
    let h: u128 = height as u128;
    assert(w * h <= 0xffff_ffff * 0xffff_ffff) by (nonlinear_arith)
        requires
            w <= 0xffff_ffff,
            h <= 0xffff_ffff,
    ;
    let product: u128 = w * h * 4;
    let expected: usize = if product > usize::MAX as u128 {
        usize::MAX
    } else {
        product as usize
    };
    if len < expected {
        None
    } else {
        Some(expected)
    }
}

/// Text of each host name.
pub open spec fn hosts_view(v: Seq<String>) -> Seq<Seq<char>> {
    v.map_values(|s: String| s@)
}

/// Hosts with the indices of their sources, as plain values.
pub open spec fn groups_view(g: Seq<(String, Vec<usize>)>) -> Seq<(Seq<char>, Seq<usize>)> {
    g.map_values(|p: (String, Vec<usize>)| (p.0@, p.1@))
}

/// The position of the group of `h`, searching from the back (`-1` when
/// there is none).
pub open spec fn find_group(g: Seq<(Seq<char>, Seq<usize>)>, h: Seq<char>) -> int
    decreases g.len(),
{
    if g.len() == 0 {
        -1
    } else if g.last().0 == h {
        g.len() - 1
    } else {
        find_group(g.drop_last(), h)
    }
}

/// Sources grouped by host: each host once, in the order it is first seen,
/// with the indices of its sources in order.
pub open spec fn host_groups(hosts: Seq<Seq<char>>) -> Seq<(Seq<char>, Seq<usize>)>
    decreases hosts.len(),
{
    if hosts.len() == 0 {
        Seq::empty()
    } else {
        let g = host_groups(hosts.drop_last());
        let h = hosts.last();
        let i = (hosts.len() - 1) as usize;
        let k = find_group(g, h);
        if k < 0 {
            g.push((h, seq![i]))
        } else {
            g.update(k, (h, g[k].1.push(i)))
        }
    }
}

proof fn lemma_find_group_range(g: Seq<(Seq<char>, Seq<usize>)>, h: Seq<char>)
    ensures
        -1 <= find_group(g, h) < g.len(),
        find_group(g, h) >= 0 ==> g[find_group(g, h)].0 == h,
    decreases g.len(),
{
    if g.len() > 0 && g.last().0 != h {
        lemma_find_group_range(g.drop_last(), h);
    }
}

proof fn lemma_find_group_skip(g: Seq<(Seq<char>, Seq<usize>)>, h: Seq<char>, j: int)
    requires
        0 <= j <= g.len(),
        forall|m: int| j <= m < g.len() ==> (#[trigger] g[m]).0 != h,
    ensures
        find_group(g, h) == find_group(g.take(j), h),
    decreases g.len() - j,
{
    if j < g.len() {
        assert(g.last().0 != h);
        let d = g.drop_last();
        assert forall|m: int| j <= m < d.len() implies (#[trigger] d[m]).0 != h by {
            assert(d[m] == g[m]);
        }
        lemma_find_group_skip(d, h, j);
        assert(d.take(j) =~= g.take(j));
    } else {
        assert(g.take(j) =~= g);
    }
}

/// Group the discovered sources by host (`hosts[i]` is the host of source
/// `i`): each host once, in first-seen order, with its sources' indices.
pub fn group_by_host(hosts: &Vec<String>) -> (r: Vec<(String, Vec<usize>)>)
    ensures
        groups_view(r@) == host_groups(hosts_view(hosts@)),
{
    let ghost hv = hosts_view(hosts@);
    let mut g: Vec<(String, Vec<usize>)> = Vec::new();
    let mut i: usize = 0;
    while i < hosts.len()
        invariant
            i <= hosts@.len(),
            hv == hosts_view(hosts@),
            groups_view(g@) == host_groups(hv.take(i as int)),
        decreases hosts.len() - i,
    {
        let ghost gv = groups_view(g@);
        let ghost h = hosts@[i as int]@;
        proof {
            assert(hv.take(i + 1).drop_last() =~= hv.take(i as int));
            assert(hv.take(i + 1).last() == h);
        }
        let mut j: usize = g.len();
        let mut found = false;
        while j > 0
            invariant_except_break
                !found,
            invariant
                j <= g@.len(),
                gv == groups_view(g@),
                h == hosts@[i as int]@,
                i < hosts@.len(),
                forall|m: int| j <= m < gv.len() ==> (#[trigger] gv[m]).0 != h,
            ensures
                found ==> 0 < j && gv[j - 1].0 == h,
                !found ==> j == 0,
            decreases j,
        {
            proof {
                assert(gv[j - 1].0 == g@[j - 1].0@);
            }
            if crate::text::text_eq(g[j - 1].0.as_str(), hosts[i].as_str()) {
                found = true;
                break;
            }
            j = j - 1;
        }
        proof {
            lemma_find_group_skip(gv, h, j as int);
        }
        if found {
            proof {
                assert(gv.take(j as int).last().0 == h);
                assert(find_group(gv.take(j as int), h) == j - 1);
            }
            let k = j - 1;
            let mut entry: (String, Vec<usize>) = (String::new(), Vec::new());
            g.set_and_swap(k, &mut entry);
            let (name, mut list) = entry;
            list.push(i);
            g.set(k, (name, list));
            assert(groups_view(g@) =~= gv.update(k as int, (h, gv[k as int].1.push(i))));
        } else {
            proof {
                assert(gv.take(0) =~= Seq::<(Seq<char>, Seq<usize>)>::empty());
            }
            let mut list: Vec<usize> = Vec::new();
            list.push(i);
            let name = hosts[i].clone();
            g.push((name, list));
            assert(groups_view(g@) =~= gv.push((h, seq![i])));
        }
        i = i + 1;
    }
    assert(hv.take(hosts.len() as int) =~= hv);
    g
}

/// The label of a source row: its source name, or the whole name when the
/// source name is empty.
pub fn source_label(source: &str, name: &str) -> (r: String)
    ensures
        r@ == if source@.len() == 0 {
            name@
        } else {
            source@
        },
{
    if source.unicode_len() == 0 {
        owned(name)
    } else {
        owned(source)
    }
}

} // verus!
