use vstd::prelude::*;

use crate::render::{decimal, push_decimal, push_repeated, repeat};

verus! {

/// Seconds between two samples.
pub const SAMPLE_INTERVAL_SECS: u64 = 1;

/// Bytes in a (decimal) megabyte.
pub const BYTES_PER_MB: u64 = 1000000;

/// The longest pause, in milliseconds, between two polls of the sampler loop.
pub const POLL_MILLIS: u64 = 20;

/// What the sampler loop does on one poll.
#[derive(Clone, Copy, Debug, PartialEq, Eq, Structural)]
pub enum SampleDecision {
    /// Completion has fired: leave the loop.
    Stop,
    /// The interval has not passed: pause at most `POLL_MILLIS`, then poll again.
    Wait,
    /// The interval has passed: drain the counter and record a sample.
    Sample,
}

/// Decides one poll of the sampler loop from whether completion has fired and
/// the whole seconds since the last sample.
pub fn decide(completed: bool, elapsed_secs: u64) -> (d: SampleDecision)
    ensures
        completed ==> d == SampleDecision::Stop,
        !completed && elapsed_secs >= SAMPLE_INTERVAL_SECS ==> d == SampleDecision::Sample,
        !completed && elapsed_secs < SAMPLE_INTERVAL_SECS ==> d == SampleDecision::Wait,
{
    if completed {
        SampleDecision::Stop
    } else if elapsed_secs >= SAMPLE_INTERVAL_SECS {
        SampleDecision::Sample
    } else {
        SampleDecision::Wait
    }
}

/// The rate, in megabytes per second, of `drained` bytes moved in one interval.
pub open spec fn rate_of(drained: nat) -> nat {
    drained / (BYTES_PER_MB * SAMPLE_INTERVAL_SECS) as nat
}

/// The cells of the progress bar.
pub const BAR_WIDTH: u64 = 20;

/// Which fields the status line shows.
#[derive(Clone, Copy, Debug, PartialEq, Eq, Structural)]
pub struct DisplayOptions {
    /// The bytes the whole transfer is expected to hold, where known.
    pub size_hint: Option<u64>,
    /// Show progress towards `size_hint` as a bar.
    pub progress_bar: bool,
    /// Show the seconds since the transfer started.
    pub show_timer: bool,
    /// Show the seconds still needed at the latest rate.
    pub show_eta: bool,
    /// Show the rate. It is always shown beside the total.
    pub show_rate: bool,
    /// Show progress towards `size_hint` as a percentage, in place of the bar.
    pub numeric_only: bool,
    /// Show nothing at all; the copy goes on.
    pub quiet: bool,
}

/// The share of `size` that `bytes` make, in whole percent, at most 100. An
/// empty transfer is complete from the start.
pub open spec fn percent(bytes: nat, size: nat) -> nat {
    if size == 0 || bytes * 100 / size >= 100 {
        100
    } else {
        bytes * 100 / size
    }
}

/// The seconds still needed to reach `size` bytes, having moved `bytes`, at
/// `last` bytes per interval; unknown where nothing moved in the latest interval.
pub open spec fn eta_secs(size: nat, bytes: nat, last: nat) -> Option<nat> {
    if bytes >= size {
        Some(0)
    } else if last == 0 {
        None
    } else {
        Some(((size - bytes) as nat * SAMPLE_INTERVAL_SECS as nat) / last)
    }
}

/// The progress field for `opts`: a percentage or a bar, where a size is known.
pub open spec fn progress_text(s: SamplerView, opts: DisplayOptions) -> Seq<char> {
    match opts.size_hint {
        Some(size) => if opts.numeric_only {
            " -- "@ + decimal(percent(s.bytes, size as nat)) + "%"@
        } else if opts.progress_bar {
            " ["@ + repeat("#"@, percent(s.bytes, size as nat) / 5) + repeat("-"@,
                (BAR_WIDTH - percent(s.bytes, size as nat) / 5) as nat) + "]"@
        } else {
            Seq::empty()
        },
        None => Seq::empty(),
    }
}

/// The remaining-time field for `opts`, where a size is known.
pub open spec fn eta_text(s: SamplerView, opts: DisplayOptions) -> Seq<char> {
    match opts.size_hint {
        Some(size) => if opts.show_eta {
            " -- ETA: "@ + match eta_secs(size as nat, s.bytes, s.last) {
                Some(e) => decimal(e) + "s"@,
                None => "?"@,
            }
        } else {
            Seq::empty()
        },
        None => Seq::empty(),
    }
}

/// The status line for state `s` after `elapsed` seconds: nothing when quiet,
/// else the total and the rate, then the optional fields, ending in a carriage
/// return so that the next line overwrites it.
pub open spec fn status_text(s: SamplerView, opts: DisplayOptions, elapsed: nat) -> Seq<char> {
    if opts.quiet {
        Seq::empty()
    } else {
        "  Total: "@ + decimal(s.total) + "MB -- [MB/s]: "@ + decimal(s.rate)
            + (if opts.show_timer { " -- Time: "@ + decimal(elapsed) + "s"@ } else { Seq::empty() })
            + progress_text(s, opts) + eta_text(s, opts) + "\r"@
    }
}

/// The sampler's state as a model.
pub ghost struct SamplerView {
    /// The running total: the sum of every rate recorded.
    pub total: nat,
    /// The rate of the latest sample.
    pub rate: nat,
    /// The bytes of the latest sample.
    pub last: nat,
    /// Every byte drained so far.
    pub bytes: nat,
}

/// The reporter's running state: the rate and total that the status line shows.
pub struct Sampler {
    total: u64,
    rate: u64,
    last: u64,
    bytes: u64,
}

impl View for Sampler {
    type V = SamplerView;

    closed spec fn view(&self) -> SamplerView {
        SamplerView { total: self.total as nat, rate: self.rate as nat, last: self.last as nat, bytes: self.bytes as nat }
    }
}

impl Sampler {
    pub fn new() -> (s: Sampler)
        ensures
            s@ == (SamplerView { total: 0, rate: 0, last: 0, bytes: 0 }),
    {
        Sampler { total: 0, rate: 0, last: 0, bytes: 0 }
    }

    pub fn total(&self) -> (r: u64)
        ensures
            r == self@.total,
    {
        self.total
    }

    pub fn rate(&self) -> (r: u64)
        ensures
            r == self@.rate,
    {
        self.rate
    }

    pub fn bytes(&self) -> (r: u64)
        ensures
            r == self@.bytes,
    {
        self.bytes
    }

    /// Records one sample of `drained` bytes: the rate is their megabytes over
    /// the interval, and it is added to the running total. Returns the rate, or
    /// `None`, with nothing changed, where the total or the byte count would
    /// pass `u64::MAX`. The total never decreases.
    pub fn record(&mut self, drained: u64) -> (r: Option<u64>)
        ensures
            r is None <==> (old(self)@.total + rate_of(drained as nat) > u64::MAX
                || old(self)@.bytes + drained > u64::MAX),
            r is None ==> final(self)@ == old(self)@,
            r matches Some(rate) ==> {
                &&& rate == rate_of(drained as nat)
                &&& final(self)@ == (SamplerView {
                    total: old(self)@.total + rate as nat,
                    rate: rate as nat,
                    last: drained as nat,
                    bytes: old(self)@.bytes + drained as nat,
                })
            },
            final(self)@.total >= old(self)@.total,
    {
        let rate = drained / (BYTES_PER_MB * SAMPLE_INTERVAL_SECS);
        if rate > u64::MAX - self.total || drained > u64::MAX - self.bytes {
            return None;
        }
        self.total = self.total + rate;
        self.rate = rate;
        self.last = drained;
        self.bytes = self.bytes + drained;
        Some(rate)
    }
}

impl Sampler {
    fn percent_done(&self, size: u64) -> (r: u64)
        ensures
            r == percent(self@.bytes, size as nat),
    {
        if size == 0 {
            return 100;
        }
        let p: u128 = (self.bytes as u128) * 100 / (size as u128);
        if p >= 100 {
            100
        } else {
            p as u64
        }
    }

    fn push_progress(&self, out: &mut String, opts: &DisplayOptions)
        ensures
            final(out)@ == old(out)@ + progress_text(self@, *opts),
    {
        if let Some(size) = opts.size_hint {
            let pct = self.percent_done(size);
            if opts.numeric_only {
                out.append(" -- ");
                push_decimal(out, pct);
                out.append("%");
            } else if opts.progress_bar {
                out.append(" [");
                push_repeated(out, "#", pct / 5);
                push_repeated(out, "-", BAR_WIDTH - pct / 5);
                out.append("]");
            }
        }
        assert(out@ =~= old(out)@ + progress_text(self@, *opts));
    }

    fn push_eta(&self, out: &mut String, opts: &DisplayOptions)
        ensures
            final(out)@ == old(out)@ + eta_text(self@, *opts),
    {
        if let Some(size) = opts.size_hint {
            if opts.show_eta {
                out.append(" -- ETA: ");
                if self.bytes >= size {
                    push_decimal(out, 0);
                    out.append("s");
                } else if self.last == 0 {
                    out.append("?");
                } else {
                    let secs: u64 = (size - self.bytes) * SAMPLE_INTERVAL_SECS / self.last;
                    push_decimal(out, secs);
                    out.append("s");
                }
            }
        }
        assert(out@ =~= old(out)@ + eta_text(self@, *opts));
    }

    /// The status line for this state after `elapsed_secs` seconds, as
    /// `status_text` gives it.
    pub fn status_line(&self, opts: &DisplayOptions, elapsed_secs: u64) -> (r: String)
        ensures
            r@ == status_text(self@, *opts, elapsed_secs as nat),
    {
        let mut out = String::new();
        if opts.quiet {
            return out;
        }
        out.append("  Total: ");
        push_decimal(&mut out, self.total);
        out.append("MB -- [MB/s]: ");
        push_decimal(&mut out, self.rate);
        if opts.show_timer {
            out.append(" -- Time: ");
            push_decimal(&mut out, elapsed_secs);
            out.append("s");
        }
        self.push_progress(&mut out, opts);
        self.push_eta(&mut out, opts);
        out.append("\r");
        assert(out@ =~= status_text(self@, *opts, elapsed_secs as nat));
        out
    }
}

} // verus!
