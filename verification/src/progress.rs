use vstd::prelude::*;
use crate::decimal::{decimal, decimal_value, is_digit, lemma_decimal_reads_back, push_decimal};

verus! {

/// What the patcher reports of a running download: each pair is
/// (done, total).
pub struct ProgressSnapshot {
    pub hashes_checked: (u64, u64),
    pub download_size: (u64, u64),
    pub patch_files: (u64, u64),
    pub finished_patching: bool,
}

/// The state of the loop that reports download progress to the user
/// interface every half second.
pub struct DownloadMonitor {
    /// The downloaded size seen at the previous report.
    pub last_download_size: u64,
    /// Whether the patcher had not finished at the previous report.
    pub running: bool,
}

/// The names of the units, by index.
pub open spec fn unit_name(i: nat) -> Seq<char> {
    if i == 0 {
        "B"@
    } else if i == 1 {
        "KB"@
    } else if i == 2 {
        "MB"@
    } else if i == 3 {
        "GB"@
    } else if i == 4 {
        "TB"@
    } else if i == 5 {
        "PB"@
    } else if i == 6 {
        "EB"@
    } else if i == 7 {
        "ZB"@
    } else {
        "YB"@
    }
}

/// Bytes per second over a half-second interval in which the downloaded size
/// went from `last` to `current`.
pub open spec fn reported_rate(last: nat, current: nat) -> int {
    (current - last) * 2
}

/// The JSON object that the user interface receives at each report.
pub open spec fn progress_json_text(p: ProgressSnapshot, speed: Seq<char>) -> Seq<char> {
    "{\"hash\": ["@ + decimal(p.hashes_checked.0 as nat) + ","@ + decimal(p.hashes_checked.1 as nat)
        + "],\"download\": ["@ + decimal(p.download_size.0 as nat) + ".0,"@ + decimal(
        p.download_size.1 as nat,
    ) + ".0],\"patch\": ["@ + decimal(p.patch_files.0 as nat) + ","@ + decimal(
        p.patch_files.1 as nat,
    ) + "],\"download_speed\": \""@ + speed + "\"}"@
}

/// The name of the unit of index `i`, one of the nine from B to YB. The
/// index itself is the floor of the base-1024 logarithm of the rate, which
/// the launcher computes in floating point.
pub fn unit_label(i: usize) -> (s: &'static str)
    requires
        i < 9,
    ensures
        s@ == unit_name(i as nat),
{
    proof {
        reveal_strlit("B");
        reveal_strlit("KB");
        reveal_strlit("MB");
        reveal_strlit("GB");
        reveal_strlit("TB");
        reveal_strlit("PB");
        reveal_strlit("EB");
        reveal_strlit("ZB");
        reveal_strlit("YB");
    }
    if i == 0 {
        "B"
    } else if i == 1 {
        "KB"
    } else if i == 2 {
        "MB"
    } else if i == 3 {
        "GB"
    } else if i == 4 {
        "TB"
    } else if i == 5 {
        "PB"
    } else if i == 6 {
        "EB"
    } else if i == 7 {
        "ZB"
    } else {
        "YB"
    }
}

/// The progress report in the JSON form the user interface parses; `speed`
/// is the transfer rate already written out (such as "1.50 MB/s").
pub fn progress_json(p: &ProgressSnapshot, speed: &str) -> (json: String)
    ensures
        json@ == progress_json_text(*p, speed@),
{
    let mut s = String::new();
    s.append("{\"hash\": [");
    push_decimal(&mut s, p.hashes_checked.0);
    s.append(",");
    push_decimal(&mut s, p.hashes_checked.1);
    s.append("],\"download\": [");
    push_decimal(&mut s, p.download_size.0);
    s.append(".0,");
    push_decimal(&mut s, p.download_size.1);
    s.append(".0],\"patch\": [");
    push_decimal(&mut s, p.patch_files.0);
    s.append(",");
    push_decimal(&mut s, p.patch_files.1);
    s.append("],\"download_speed\": \"");
    s.append(speed);
    s.append("\"}");
    assert(s@ =~= progress_json_text(*p, speed@));
    s
}

impl DownloadMonitor {
    /// The monitor before the first report: nothing downloaded yet, running.
    pub fn new() -> (m: DownloadMonitor)
        ensures
            m.last_download_size == 0,
            m.running,
    {
        DownloadMonitor { last_download_size: 0, running: true }
    }

    /// Whether the reporting loop goes on.
    pub fn is_running(&self) -> (b: bool)
        ensures
            b == self.running,
    {
        self.running
    }

    /// Takes a new snapshot into account: returns the transfer rate in bytes
    /// per second since the previous report, remembers the downloaded size
    /// and stops once the patcher has finished. The downloaded size must not
    /// have shrunk, and the rate must fit in a `u64`.
    pub fn observe(&mut self, p: &ProgressSnapshot) -> (rate: u64)
        requires
            old(self).last_download_size <= p.download_size.0,
            reported_rate(old(self).last_download_size as nat, p.download_size.0 as nat)
                <= u64::MAX,
        ensures
            rate == reported_rate(old(self).last_download_size as nat, p.download_size.0 as nat),
            final(self).last_download_size == p.download_size.0,
            final(self).running == !p.finished_patching,
    {
        let rate = (p.download_size.0 - self.last_download_size) * 2;
        self.last_download_size = p.download_size.0;
        self.running = !p.finished_patching;
        rate
    }
}

/// Law: the report's "download" pair holds the downloaded size, then the
/// total size. Right after the text that carries the checked hashes come
/// digits that read back as `download_size.0`, then ".0,", then digits that
/// read back as `download_size.1`, then the closing of the pair.
pub proof fn lemma_report_download_pair(p: ProgressSnapshot, speed: Seq<char>)
    ensures
        ({
            let t = progress_json_text(p, speed);
            let head = "{\"hash\": ["@ + decimal(p.hashes_checked.0 as nat) + ","@ + decimal(
                p.hashes_checked.1 as nat,
            ) + "],\"download\": ["@;
            let k = head.len() as int;
            let m = decimal(p.download_size.0 as nat).len() as int;
            let m2 = decimal(p.download_size.1 as nat).len() as int;
            let close = ".0],\"patch\": ["@;
            &&& t.subrange(0, k) == head
            &&& m >= 1
            &&& forall|i: int| k <= i < k + m ==> is_digit(#[trigger] t[i])
            &&& decimal_value(t.subrange(k, k + m)) == p.download_size.0
            &&& t.subrange(k + m, k + m + 3) == ".0,"@
            &&& m2 >= 1
            &&& forall|i: int| k + m + 3 <= i < k + m + 3 + m2 ==> is_digit(#[trigger] t[i])
            &&& decimal_value(t.subrange(k + m + 3, k + m + 3 + m2)) == p.download_size.1
            &&& t.subrange(k + m + 3 + m2, k + m + 3 + m2 + close.len()) == close
        }),
{
    let t = progress_json_text(p, speed);
    let head = "{\"hash\": ["@ + decimal(p.hashes_checked.0 as nat) + ","@ + decimal(
        p.hashes_checked.1 as nat,
    ) + "],\"download\": ["@;
    let d0 = decimal(p.download_size.0 as nat);
    let d1 = decimal(p.download_size.1 as nat);
    let close = ".0],\"patch\": ["@;
    let tail = decimal(p.patch_files.0 as nat) + ","@ + decimal(p.patch_files.1 as nat)
        + "],\"download_speed\": \""@ + speed + "\"}"@;
    lemma_decimal_reads_back(p.download_size.0 as nat);
    lemma_decimal_reads_back(p.download_size.1 as nat);
    assert(t =~= head + d0 + ".0,"@ + d1 + close + tail);
    let k = head.len() as int;
    let m = d0.len() as int;
    let m2 = d1.len() as int;
    assert(t.subrange(0, k) =~= head);
    assert(t.subrange(k, k + m) =~= d0);
    assert(t.subrange(k + m, k + m + 3) =~= ".0,"@) by {
        reveal_strlit(".0,");
    }
    assert(t.subrange(k + m + 3, k + m + 3 + m2) =~= d1) by {
        reveal_strlit(".0,");
    }
    assert(t.subrange(k + m + 3 + m2, k + m + 3 + m2 + close.len()) =~= close) by {
        reveal_strlit(".0,");
    }
    assert forall|i: int| k <= i < k + m implies is_digit(#[trigger] t[i]) by {
        assert(t[i] == d0[i - k]);
    }
    assert forall|i: int| k + m + 3 <= i < k + m + 3 + m2 implies is_digit(#[trigger] t[i]) by {
        reveal_strlit(".0,");
        assert(t[i] == d1[i - (k + m + 3)]);
    }
}

/// The sum of the rates reported for a run of snapshots whose downloaded
/// sizes are `sizes`, starting from `start`.
pub open spec fn total_reported(start: nat, sizes: Seq<nat>) -> int
    decreases sizes.len(),
{
    if sizes.len() == 0 {
        0
    } else {
        total_reported(start, sizes.drop_last()) + reported_rate(
            if sizes.len() == 1 { start } else { sizes[sizes.len() - 2] },
            sizes.last(),
        )
    }
}

/// Law: over any run of reports in which the downloaded size never shrinks,
/// the rates reported add up to twice the bytes downloaded in the run (each
/// rate covers half a second).
pub proof fn lemma_reported_rates_add_up(start: nat, sizes: Seq<nat>)
    requires
        sizes.len() > 0,
        start <= sizes[0],
        forall|i: int, j: int| 0 <= i <= j < sizes.len() ==> sizes[i] <= sizes[j],
    ensures
        total_reported(start, sizes) == 2 * (sizes.last() - start),
    decreases sizes.len(),
{
    if sizes.len() > 1 {
        let prefix = sizes.drop_last();
        assert forall|i: int, j: int| 0 <= i <= j < prefix.len() implies prefix[i] <= prefix[j] by {
            assert(prefix[i] == sizes[i] && prefix[j] == sizes[j]);
        }
        assert(prefix[0] == sizes[0]);
        lemma_reported_rates_add_up(start, prefix);
        assert(prefix.last() == sizes[sizes.len() - 2]);
        assert(sizes[sizes.len() - 2] <= sizes.last());
        assert(total_reported(start, sizes) == total_reported(start, prefix) + reported_rate(
            sizes[sizes.len() - 2],
            sizes.last(),
        ));
    } else {
        assert(sizes.drop_last().len() == 0);
        assert(total_reported(start, sizes.drop_last()) == 0);
        assert(total_reported(start, sizes) == reported_rate(start, sizes.last()));
    }
}

} // verus!
