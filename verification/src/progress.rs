//! Aggregate progress state for the download batch: shared counters written
//! by the download loop and read by a reporting loop, plus the arithmetic
//! and rendering of the periodic status line (throughput, ETA, percent).
//!
//! The counters here are the plain sequential values; the caller that shares
//! them between the download loop and the reporting loop wraps them in
//! atomics. Every update below is a single-counter operation, so no
//! multi-field atomicity is needed.

use vstd::prelude::*;
use crate::text::{dec_spec, pad2_spec, u64_to_dec, u64_to_pad2};

verus! {

/// Saturating addition on byte and file counters: the counters grow
/// monotonically and stick at the maximum rather than wrap.
pub open spec fn sat_add_spec(a: u64, b: u64) -> u64 {
    if a + b <= u64::MAX {
        (a + b) as u64
    } else {
        u64::MAX
    }
}

fn sat_add(a: u64, b: u64) -> (r: u64)
    ensures
        r == sat_add_spec(a, b),
{
    if b <= u64::MAX - a {
        a + b
    } else {
        u64::MAX
    }
}

/// Bytes expected and bytes downloaded so far, shared between the download
/// loop and the reporting loop.
pub struct DownloadProgress {
    /// Total expected bytes; grows as per-file sizes are discovered.
    pub total_bytes: u64,
    /// Bytes downloaded so far; grows as chunks are written.
    pub downloaded_bytes: u64,
}

/// The process-wide progress state: a cooperative stop flag, the count of
/// fully verified files, and the byte counters.
pub struct ProgressTracker {
    /// Set once to request that the download loop and reporter wind down.
    pub should_stop: bool,
    /// Files completed and verified so far.
    pub success: u64,
    /// The byte counters.
    pub progress: DownloadProgress,
}

/// Creates the shared progress state for one batch: nothing downloaded,
/// no successes, stop not requested, and the globally probed total recorded.
pub fn track_progress(total_size: u64) -> (t: ProgressTracker)
    ensures
        !t.should_stop,
        t.success == 0,
        t.progress.total_bytes == total_size,
        t.progress.downloaded_bytes == 0,
{
    ProgressTracker {
        should_stop: false,
        success: 0,
        progress: DownloadProgress { total_bytes: total_size, downloaded_bytes: 0 },
    }
}

/// One update issued by the download loop.
pub enum ProgressUpdate {
    /// A newly discovered per-file size was added to the expected total.
    ExpectedBytes(u64),
    /// A chunk of this many bytes was written.
    Bytes(u64),
    /// One file finished and verified.
    Success,
}

/// The state after one update.
pub open spec fn apply_update(t: ProgressTracker, u: ProgressUpdate) -> ProgressTracker {
    match u {
        ProgressUpdate::ExpectedBytes(n) => (ProgressTracker {
            progress: DownloadProgress {
                total_bytes: sat_add_spec(t.progress.total_bytes, n),
                ..t.progress
            },
            ..t
        }),
        ProgressUpdate::Bytes(n) => (ProgressTracker {
            progress: DownloadProgress {
                downloaded_bytes: sat_add_spec(t.progress.downloaded_bytes, n),
                ..t.progress
            },
            ..t
        }),
        ProgressUpdate::Success => (ProgressTracker { success: sat_add_spec(t.success, 1), ..t }),
    }
}

/// The state after a sequence of updates, applied in order.
pub open spec fn apply_updates(t: ProgressTracker, us: Seq<ProgressUpdate>) -> ProgressTracker
    decreases us.len(),
{
    if us.len() == 0 {
        t
    } else {
        apply_updates(apply_update(t, us[0]), us.skip(1))
    }
}

impl ProgressTracker {
    /// Records a newly discovered expected size.
    pub fn add_expected_bytes(&mut self, n: u64)
        ensures
            *final(self) == apply_update(*old(self), ProgressUpdate::ExpectedBytes(n)),
    {
        self.progress.total_bytes = sat_add(self.progress.total_bytes, n);
    }

    /// Records bytes written by the transfer loop.
    pub fn record_bytes(&mut self, n: u64)
        ensures
            *final(self) == apply_update(*old(self), ProgressUpdate::Bytes(n)),
    {
        self.progress.downloaded_bytes = sat_add(self.progress.downloaded_bytes, n);
    }

    /// Records one fully verified file.
    pub fn record_success(&mut self)
        ensures
            *final(self) == apply_update(*old(self), ProgressUpdate::Success),
    {
        self.success = sat_add(self.success, 1);
    }

    /// Requests cooperative cancellation; counters are untouched.
    pub fn request_stop(&mut self)
        ensures
            final(self).should_stop,
            final(self).success == old(self).success,
            final(self).progress == old(self).progress,
    {
        self.should_stop = true;
    }
}

/// Sum of the byte amounts recorded by a sequence of updates.
pub open spec fn sum_bytes(us: Seq<ProgressUpdate>) -> nat
    decreases us.len(),
{
    if us.len() == 0 {
        0
    } else {
        (match us[0] {
            ProgressUpdate::Bytes(n) => n as nat,
            _ => 0,
        }) + sum_bytes(us.skip(1))
    }
}

/// Sum of the expected sizes recorded by a sequence of updates.
pub open spec fn sum_expected(us: Seq<ProgressUpdate>) -> nat
    decreases us.len(),
{
    if us.len() == 0 {
        0
    } else {
        (match us[0] {
            ProgressUpdate::ExpectedBytes(n) => n as nat,
            _ => 0,
        }) + sum_expected(us.skip(1))
    }
}

/// Number of successes recorded by a sequence of updates.
pub open spec fn count_success(us: Seq<ProgressUpdate>) -> nat
    decreases us.len(),
{
    if us.len() == 0 {
        0
    } else {
        (match us[0] {
            ProgressUpdate::Success => 1nat,
            _ => 0,
        }) + count_success(us.skip(1))
    }
}

/// Updates from the single writer are never lost: after any sequence of
/// updates that stays within the counters' range, each counter holds its
/// starting value plus exactly what the sequence recorded, and the stop
/// flag is untouched. A later read (the reporting tick) therefore sees
/// every earlier increment.
pub proof fn lemma_no_lost_updates(t: ProgressTracker, us: Seq<ProgressUpdate>)
    requires
        t.progress.downloaded_bytes + sum_bytes(us) <= u64::MAX,
        t.progress.total_bytes + sum_expected(us) <= u64::MAX,
        t.success + count_success(us) <= u64::MAX,
    ensures
        apply_updates(t, us).progress.downloaded_bytes == t.progress.downloaded_bytes + sum_bytes(
            us,
        ),
        apply_updates(t, us).progress.total_bytes == t.progress.total_bytes + sum_expected(us),
        apply_updates(t, us).success == t.success + count_success(us),
        apply_updates(t, us).should_stop == t.should_stop,
    decreases us.len(),
{
    if us.len() > 0 {
        lemma_no_lost_updates(apply_update(t, us[0]), us.skip(1));
    }
}

/// Instantaneous throughput in bytes per second: zero before the first
/// whole second has elapsed.
pub open spec fn speed_spec(downloaded: nat, elapsed_secs: nat) -> nat {
    if elapsed_secs > 0 {
        downloaded / elapsed_secs
    } else {
        0
    }
}

/// Bytes still to download, zero when more arrived than was expected.
pub open spec fn remaining_spec(total: nat, downloaded: nat) -> nat {
    if total >= downloaded {
        (total - downloaded) as nat
    } else {
        0
    }
}

/// Estimated seconds remaining: zero when the speed is zero or no files
/// remain to complete.
pub open spec fn eta_spec(total: nat, downloaded: nat, elapsed_secs: nat, remaining_files: nat) -> nat {
    if speed_spec(downloaded, elapsed_secs) > 0 && remaining_files > 0 {
        remaining_spec(total, downloaded) / speed_spec(downloaded, elapsed_secs)
    } else {
        0
    }
}

/// Whole percent of the expected bytes already downloaded, capped at the
/// counter maximum; meaningful only when the expected total is nonzero.
pub open spec fn percent_spec(downloaded: nat, total: nat) -> u64
    recommends
        total > 0,
{
    if downloaded * 100 / total <= u64::MAX {
        (downloaded * 100 / total) as u64
    } else {
        u64::MAX
    }
}

/// One reporting tick's derived figures.
pub struct ReportTick {
    /// Throughput in bytes per second.
    pub speed: u64,
    /// Throughput scaled for display.
    pub speed_value: u64,
    /// Whether `speed_value` is in MB/s (else KB/s).
    pub speed_is_mb: bool,
    /// Bytes still expected.
    pub remaining_bytes: u64,
    /// Estimated seconds until completion.
    pub eta_secs: u64,
    /// Whole percent downloaded, when the expected total is known nonzero.
    pub percent: Option<u64>,
}

/// Computes one reporting tick from a snapshot of the shared counters.
pub fn report_tick(
    downloaded: u64,
    total: u64,
    success_count: u64,
    total_files: u64,
    elapsed_secs: u64,
) -> (r: ReportTick)
    requires
        success_count <= total_files,
    ensures
        r.speed == speed_spec(downloaded as nat, elapsed_secs as nat),
        r.speed_is_mb == (r.speed > 1_000_000),
        r.speed_value == (if r.speed > 1_000_000 {
            r.speed / 1_000_000
        } else {
            r.speed / 1_000
        }),
        r.remaining_bytes == remaining_spec(total as nat, downloaded as nat),
        r.eta_secs == eta_spec(
            total as nat,
            downloaded as nat,
            elapsed_secs as nat,
            (total_files - success_count) as nat,
        ),
        r.percent == (if total > 0 {
            Option::Some(percent_spec(downloaded as nat, total as nat))
        } else {
            Option::<u64>::None
        }),
{
    let speed: u64 = if elapsed_secs > 0 {
        downloaded / elapsed_secs
    } else {
        0
    };
    let speed_is_mb: bool = speed > 1_000_000;
    let speed_value: u64 = if speed_is_mb {
        speed / 1_000_000
    } else {
        speed / 1_000
    };
    let remaining_bytes: u64 = if total >= downloaded {
        total - downloaded
    } else {
        0
    };
    let remaining_files: u64 = total_files - success_count;
    let eta_secs: u64 = if speed > 0 && remaining_files > 0 {
        remaining_bytes / speed
    } else {
        0
    };
    let percent: Option<u64> = if total > 0 {
        let h: u128 = (downloaded as u128) * 100 / (total as u128);
        if h > u64::MAX as u128 {
            Option::Some(u64::MAX)
        } else {
            Option::Some(h as u64)
        }
    } else {
        Option::None
    };
    ReportTick { speed, speed_value, speed_is_mb, remaining_bytes, eta_secs, percent }
}

/// Hours, minutes and seconds as `HH:MM:SS`, each field zero-padded to two
/// digits; the hour field widens past two digits when needed.
pub open spec fn duration_spec(secs: nat) -> Seq<char> {
    pad2_spec(secs / 3600) + ":"@ + pad2_spec((secs % 3600) / 60) + ":"@ + pad2_spec(secs % 60)
}

/// Formats a duration given in whole seconds as `HH:MM:SS`.
pub fn format_duration(secs: u64) -> (r: String)
    ensures
        r@ == duration_spec(secs as nat),
{
    let h = u64_to_pad2(secs / 3600);
    let m = u64_to_pad2((secs % 3600) / 60);
    let s = u64_to_pad2(secs % 60);
    let out = h.concat(":").concat(m.as_str()).concat(":").concat(s.as_str());
    out
}

/// Rounded hundredths of `b` scaled down by `d`: the nearest multiple of
/// one hundredth of `d`, ties rounded up.
pub open spec fn hundredths_spec(b: nat, d: nat) -> nat
    recommends
        d > 0,
{
    (b * 100 + d / 2) / d
}

/// `b` scaled down by `d`, rendered with two decimal places.
pub open spec fn scaled_spec(b: nat, d: nat) -> Seq<char>
    recommends
        d > 0,
{
    dec_spec(hundredths_spec(b, d) / 100) + "."@ + pad2_spec(hundredths_spec(b, d) % 100)
}

/// Human-readable byte count: two decimals of GB above a billion bytes, of
/// MB above a million, of KB above a thousand, else plain bytes.
pub open spec fn human_spec(b: nat) -> Seq<char> {
    if b > 1_000_000_000 {
        scaled_spec(b, 1_000_000_000) + " GB"@
    } else if b > 1_000_000 {
        scaled_spec(b, 1_000_000) + " MB"@
    } else if b > 1_000 {
        scaled_spec(b, 1_000) + " KB"@
    } else {
        dec_spec(b) + " B"@
    }
}

fn scaled(b: u64, d: u64) -> (r: String)
    requires
        d == 1_000_000_000 || d == 1_000_000 || d == 1_000,
    ensures
        r@ == scaled_spec(b as nat, d as nat),
{
    let h128: u128 = ((b as u128) * 100 + (d / 2) as u128) / (d as u128);
    proof {
        vstd::arithmetic::div_mod::lemma_div_is_ordered(
            (b as int) * 100 + (d as int) / 2,
            (u64::MAX as int) * 100 + 500_000_000,
            d as int,
        );
        vstd::arithmetic::div_mod::lemma_div_is_ordered_by_denominator(
            (u64::MAX as int) * 100 + 500_000_000,
            1_000,
            d as int,
        );
        assert(h128 <= ((u64::MAX as int) * 100 + 500_000_000) / 1_000);
    }
    let h: u64 = h128 as u64;
    let whole = u64_to_dec(h / 100);
    let frac = u64_to_pad2(h % 100);
    let out = whole.concat(".").concat(frac.as_str());
    out
}

/// Human-readable rendering of a byte count, matching `human_spec`.
pub fn bytes_to_human(bytes: u64) -> (r: String)
    ensures
        r@ == human_spec(bytes as nat),
{
    if bytes > 1_000_000_000 {
        scaled(bytes, 1_000_000_000).concat(" GB")
    } else if bytes > 1_000_000 {
        scaled(bytes, 1_000_000).concat(" MB")
    } else if bytes > 1_000 {
        scaled(bytes, 1_000).concat(" KB")
    } else {
        u64_to_dec(bytes).concat(" B")
    }
}

/// The status line shown while the batch runs, from one tick's figures.
pub open spec fn title_spec(
    success_count: nat,
    total_files: nat,
    downloaded: nat,
    percent: Option<u64>,
    speed_value: nat,
    speed_is_mb: bool,
    eta_secs: nat,
) -> Seq<char> {
    "Wuthering Waves Downloader - "@ + dec_spec(success_count) + "/"@ + dec_spec(total_files)
        + " files - Total Downloaded: "@ + human_spec(downloaded) + (match percent {
        Option::Some(p) => " ("@ + dec_spec(p as nat) + "%)"@,
        Option::None => Seq::<char>::empty(),
    }) + " - Speed: "@ + dec_spec(speed_value) + (if speed_is_mb {
        "MB/s"@
    } else {
        "KB/s"@
    }) + " - Total ETA: "@ + duration_spec(eta_secs)
}

/// Renders the periodic status line from a snapshot of the shared counters,
/// combining throughput, percent done and the estimated time remaining.
pub fn title_line(
    downloaded: u64,
    total: u64,
    success_count: u64,
    total_files: u64,
    elapsed_secs: u64,
) -> (r: String)
    requires
        success_count <= total_files,
    ensures
        ({
            let tick = report_tick_figures(downloaded, total, success_count, total_files, elapsed_secs);
            r@ == title_spec(
                success_count as nat,
                total_files as nat,
                downloaded as nat,
                tick.3,
                tick.1 as nat,
                tick.2,
                tick.0 as nat,
            )
        }),
{
    let tick = report_tick(downloaded, total, success_count, total_files, elapsed_secs);
    let files = u64_to_dec(success_count);
    let total_f = u64_to_dec(total_files);
    let human = bytes_to_human(downloaded);
    let pct: String = match tick.percent {
        Option::Some(p) => {
            String::from_str(" (").concat(u64_to_dec(p).as_str()).concat("%)")
        },
        Option::None => String::new(),
    };
    let speed_str = u64_to_dec(tick.speed_value);
    let unit: &str = if tick.speed_is_mb {
        "MB/s"
    } else {
        "KB/s"
    };
    let eta = format_duration(tick.eta_secs);
    let out = String::from_str("Wuthering Waves Downloader - ")
        .concat(files.as_str())
        .concat("/")
        .concat(total_f.as_str())
        .concat(" files - Total Downloaded: ")
        .concat(human.as_str())
        .concat(pct.as_str())
        .concat(" - Speed: ")
        .concat(speed_str.as_str())
        .concat(unit)
        .concat(" - Total ETA: ")
        .concat(eta.as_str());
    out
}

/// The figures of one tick, as `title_line`'s contract names them:
/// estimated seconds, scaled speed, MB-vs-KB, and percent.
pub open spec fn report_tick_figures(
    downloaded: u64,
    total: u64,
    success_count: u64,
    total_files: u64,
    elapsed_secs: u64,
) -> (u64, u64, bool, Option<u64>) {
    let speed = speed_spec(downloaded as nat, elapsed_secs as nat);
    let speed_is_mb = speed > 1_000_000;
    let speed_value = if speed_is_mb {
        speed / 1_000_000
    } else {
        speed / 1_000
    };
    let eta = eta_spec(
        total as nat,
        downloaded as nat,
        elapsed_secs as nat,
        if total_files >= success_count {
            (total_files - success_count) as nat
        } else {
            0
        },
    );
    (eta as u64, speed_value as u64, speed_is_mb, if total > 0 {
        Option::Some(percent_spec(downloaded as nat, total as nat))
    } else {
        Option::<u64>::None
    })
}

} // verus!
