//! Windowed wind statistics.
//!
//! Raw samples are rotations per second as produced by the pulse
//! counter; each sampler tick stores one speed and one direction value.
//! Derived figures follow the meteorological convention of reporting a
//! sustained average over a long window and gusts over a short
//! sub-window: the gust figure is the highest sub-window average
//! observed since it was last cleared.
//!
//! Speeds leave this module in thousandths of the physical unit
//! (milli-km/h): a raw average is first scaled to thousandths and then
//! multiplied by the calibration factor.

use vstd::prelude::*;

use crate::window_buf::{
    gust_window_contents, slide, speed_window_contents, GustWindow, SpeedWindow,
};

verus! {

/// Calibration factor from raw rotations per second to km/h, in
/// thousandths (a placeholder until the instrument is calibrated).
pub const RPM_TO_KMH_MILLI: u64 = 1000;

/// Largest possible sub-window or full-window average, in thousandths
/// of a raw unit.
pub const MAX_AVG_MILLI: u64 = 65_535_000;

/// Sum of a sequence of raw samples.
pub open spec fn sum_of(s: Seq<u16>) -> int
    decreases s.len(),
{
    if s.len() == 0 {
        0
    } else {
        sum_of(s.drop_last()) + s.last()
    }
}

/// Largest sample of a sequence; zero when the sequence is empty.
pub open spec fn max_of(s: Seq<u16>) -> u16
    decreases s.len(),
{
    if s.len() == 0 {
        0u16
    } else if s.last() >= max_of(s.drop_last()) {
        s.last()
    } else {
        max_of(s.drop_last())
    }
}

/// Largest of a sequence of averages; zero when none was observed.
pub open spec fn max_avg_of(s: Seq<int>) -> int
    decreases s.len(),
{
    if s.len() == 0 {
        0
    } else if s.last() >= max_avg_of(s.drop_last()) {
        s.last()
    } else {
        max_avg_of(s.drop_last())
    }
}

/// Arithmetic mean of a window in thousandths of a raw unit, truncated.
pub open spec fn window_avg_milli(s: Seq<u16>) -> int
    recommends
        s.len() > 0,
{
    sum_of(s) * 1000 / (s.len() as int)
}

/// The calibration conversion on a value in thousandths of a raw unit.
pub open spec fn spec_rpm_to_kmh(raw_milli: int) -> int {
    raw_milli * (RPM_TO_KMH_MILLI as int) / 1000
}

/// Convert a raw figure in thousandths to milli-km/h by the calibration
/// factor.
pub fn rpm_to_kmh(raw_milli: u64) -> (r: u64)
    requires
        raw_milli <= MAX_AVG_MILLI,
    ensures
        r == spec_rpm_to_kmh(raw_milli as int),
{
    raw_milli * RPM_TO_KMH_MILLI / 1000
}

/// Sum of all samples in a vector.
fn sum_samples(v: &Vec<u16>) -> (r: u64)
    requires
        v@.len() <= 240,
    ensures
        r == sum_of(v@),
        r <= v@.len() * 65535,
{
    let mut sum: u64 = 0;
    let mut i: usize = 0;
    while i < v.len()
        invariant
            i <= v@.len() <= 240,
            sum == sum_of(v@.take(i as int)),
            sum <= i * 65535,
        decreases v@.len() - i,
    {
        proof {
            assert(v@.take(i + 1).drop_last() =~= v@.take(i as int));
            assert(v@.take(i + 1).last() == v@[i as int]);
        }
        sum = sum + v[i] as u64;
        i = i + 1;
    }
    proof {
        assert(v@.take(v@.len() as int) =~= v@);
    }
    sum
}

/// Largest sample in a vector; zero when it is empty.
fn max_sample(v: &Vec<u16>) -> (r: u16)
    ensures
        r == max_of(v@),
{
    let mut m: u16 = 0;
    let mut i: usize = 0;
    while i < v.len()
        invariant
            i <= v@.len(),
            m == max_of(v@.take(i as int)),
        decreases v@.len() - i,
    {
        proof {
            assert(v@.take(i + 1).drop_last() =~= v@.take(i as int));
            assert(v@.take(i + 1).last() == v@[i as int]);
        }
        if v[i] > m {
            m = v[i];
        }
        i = i + 1;
    }
    proof {
        assert(v@.take(v@.len() as int) =~= v@);
    }
    m
}

/// History of recent wind measurements: a short gust sub-window, a full
/// averaging window for speed, a direction window, and the running gust
/// peak.
pub struct WindDataHistory {
    wind_gust_buffer: GustWindow,
    wind_speed_buffer: SpeedWindow,
    wind_direction_buffer: SpeedWindow,
    wind_gust: u64,
    gust_history: Ghost<Seq<int>>,
}

impl WindDataHistory {
    /// Speed samples currently retained by the full window, oldest
    /// first.
    pub closed spec fn speeds(&self) -> Seq<u16> {
        speed_window_contents(self.wind_speed_buffer)
    }

    /// Speed samples currently retained by the gust sub-window.
    pub closed spec fn gusts(&self) -> Seq<u16> {
        gust_window_contents(self.wind_gust_buffer)
    }

    /// Direction samples currently retained, oldest first.
    pub closed spec fn directions(&self) -> Seq<u16> {
        speed_window_contents(self.wind_direction_buffer)
    }

    /// The running gust peak in thousandths of a raw unit.
    pub closed spec fn gust_peak(&self) -> int {
        self.wind_gust as int
    }

    /// Every sub-window average observed since the gust peak was last
    /// cleared, in the order it was observed.
    pub closed spec fn observed_gust_averages(&self) -> Seq<int> {
        self.gust_history@
    }

    /// Well-formedness: windows within capacity, every observed average
    /// in range, and the gust peak equal to the largest observed
    /// sub-window average.
    pub closed spec fn wf(&self) -> bool {
        &&& self.speeds().len() <= 240
        &&& self.gusts().len() <= 6
        &&& self.directions().len() <= 240
        &&& forall|i: int|
            0 <= i < self.gust_history@.len() ==> 0 <= #[trigger] self.gust_history@[i]
                <= MAX_AVG_MILLI
        &&& self.wind_gust == max_avg_of(self.gust_history@)
    }

    /// The sustained speed: mean of the full window, calibrated; zero
    /// while no sample has been stored.
    pub open spec fn spec_avg_speed(&self) -> int {
        if self.speeds().len() == 0 {
            0
        } else {
            spec_rpm_to_kmh(window_avg_milli(self.speeds()))
        }
    }

    /// The gust speed: the gust peak, calibrated.
    pub open spec fn spec_gust_speed(&self) -> int {
        spec_rpm_to_kmh(self.gust_peak())
    }

    /// The maximum speed: largest retained raw sample, calibrated; zero
    /// on an empty window.
    pub open spec fn spec_max_speed(&self) -> int {
        spec_rpm_to_kmh(max_of(self.speeds()) * 1000)
    }

    /// A fresh history: empty windows, zero gust peak.
    pub fn new() -> (r: Self)
        ensures
            r.wf(),
            r.speeds() == Seq::<u16>::empty(),
            r.gusts() == Seq::<u16>::empty(),
            r.directions() == Seq::<u16>::empty(),
            r.gust_peak() == 0,
            r.observed_gust_averages() == Seq::<int>::empty(),
    {
        WindDataHistory {
            wind_gust_buffer: GustWindow::new(),
            wind_speed_buffer: SpeedWindow::new(),
            wind_direction_buffer: SpeedWindow::new(),
            wind_gust: 0,
            gust_history: Ghost(Seq::empty()),
        }
    }

    /// Store one measurement: push the speed into the gust sub-window
    /// and the full window, push the direction, then raise the gust
    /// peak if the new sub-window average exceeds it.
    pub fn store_measurement(&mut self, speed: u16, direction: u16)
        requires
            old(self).wf(),
        ensures
            final(self).wf(),
            final(self).speeds() == slide(old(self).speeds(), 240, speed),
            final(self).gusts() == slide(old(self).gusts(), 6, speed),
            final(self).directions() == slide(old(self).directions(), 240, direction),
            final(self).observed_gust_averages() == old(self).observed_gust_averages().push(
                window_avg_milli(final(self).gusts()),
            ),
            final(self).gust_peak() == if window_avg_milli(final(self).gusts()) > old(
                self,
            ).gust_peak() {
                window_avg_milli(final(self).gusts())
            } else {
                old(self).gust_peak()
            },
            final(self).gust_peak() >= old(self).gust_peak(),
    {
        self.wind_speed_buffer.write(speed);
        self.wind_gust_buffer.write(speed);
        self.wind_direction_buffer.write(direction);

        let gv = self.wind_gust_buffer.to_vec();
        let sum = sum_samples(&gv);
        let avg: u64 = sum * 1000 / (gv.len() as u64);
        proof {
            lemma_avg_milli_in_range(gv@);
            assert(avg == window_avg_milli(gv@));
        }
        if avg > self.wind_gust {
            self.wind_gust = avg;
        }
        proof {
            self.gust_history@ = self.gust_history@.push(avg as int);
            assert(self.gust_history@.drop_last() =~= old(self).gust_history@);
        }
    }

    /// Mean speed over the full window, in milli-km/h; zero while the
    /// window is empty.
    pub fn avg_speed(&self) -> (r: u64)
        requires
            self.wf(),
        ensures
            r == self.spec_avg_speed(),
            r <= MAX_AVG_MILLI,
    {
        let v = self.wind_speed_buffer.to_vec();
        if v.len() == 0 {
            0
        } else {
            let sum = sum_samples(&v);
            let avg: u64 = sum * 1000 / (v.len() as u64);
            proof {
                lemma_avg_milli_in_range(v@);
            }
            rpm_to_kmh(avg)
        }
    }

    /// The gust figure in milli-km/h: the highest sub-window average
    /// observed since the last clear, calibrated.
    pub fn gust_speed(&self) -> (r: u64)
        requires
            self.wf(),
        ensures
            r == self.spec_gust_speed(),
            r <= MAX_AVG_MILLI,
    {
        proof {
            lemma_max_avg_in_range(self.gust_history@);
        }
        rpm_to_kmh(self.wind_gust)
    }

    /// Largest single raw sample retained by the full window, in
    /// milli-km/h; zero on an empty window.
    pub fn max_speed(&self) -> (r: u64)
        requires
            self.wf(),
        ensures
            r == self.spec_max_speed(),
            r <= MAX_AVG_MILLI,
    {
        let v = self.wind_speed_buffer.to_vec();
        let m = max_sample(&v);
        rpm_to_kmh(m as u64 * 1000)
    }

    /// One periodic report: read the current average and gust speed in
    /// milli-km/h, then reset the gust peak so a fresh gust-detection
    /// interval begins.
    pub fn take_report(&mut self) -> (r: (u64, u64))
        requires
            old(self).wf(),
        ensures
            final(self).wf(),
            r.0 == old(self).spec_avg_speed(),
            r.1 == old(self).spec_gust_speed(),
            r.0 <= MAX_AVG_MILLI,
            r.1 <= MAX_AVG_MILLI,
            final(self).gust_peak() == 0,
            final(self).observed_gust_averages() == Seq::<int>::empty(),
            final(self).speeds() == old(self).speeds(),
            final(self).gusts() == old(self).gusts(),
            final(self).directions() == old(self).directions(),
    {
        let avg = self.avg_speed();
        let gust = self.gust_speed();
        self.clear_wind_gust();
        (avg, gust)
    }

    /// Reset the gust peak to zero without touching the sample windows;
    /// called after each periodic report to open a fresh gust interval.
    pub fn clear_wind_gust(&mut self)
        requires
            old(self).wf(),
        ensures
            final(self).wf(),
            final(self).gust_peak() == 0,
            final(self).observed_gust_averages() == Seq::<int>::empty(),
            final(self).speeds() == old(self).speeds(),
            final(self).gusts() == old(self).gusts(),
            final(self).directions() == old(self).directions(),
    {
        self.wind_gust = 0;
        proof {
            self.gust_history@ = Seq::empty();
        }
    }
}

impl Default for WindDataHistory {
    /// The startup state: empty windows and a zero gust peak.
    fn default() -> (r: Self)
        ensures
            r.wf(),
            r.speeds() == Seq::<u16>::empty(),
            r.gusts() == Seq::<u16>::empty(),
            r.directions() == Seq::<u16>::empty(),
            r.gust_peak() == 0,
            r.observed_gust_averages() == Seq::<int>::empty(),
    {
        WindDataHistory::new()
    }
}

/// A sequence of samples sums to at most its length times the largest
/// sample value.
proof fn lemma_sum_bounds(s: Seq<u16>)
    ensures
        0 <= sum_of(s) <= s.len() * 65535,
    decreases s.len(),
{
    if s.len() > 0 {
        lemma_sum_bounds(s.drop_last());
    }
}

/// A window average lies between zero and the largest possible average.
proof fn lemma_avg_milli_in_range(s: Seq<u16>)
    requires
        s.len() > 0,
    ensures
        0 <= window_avg_milli(s) <= MAX_AVG_MILLI,
{
    lemma_sum_bounds(s);
    let n = s.len() as int;
    assert(sum_of(s) * 1000 <= n * 65535 * 1000) by (nonlinear_arith)
        requires
            0 <= sum_of(s) <= n * 65535,
    ;
    assert(n * 65535 * 1000 == n * 65_535_000) by (nonlinear_arith);
    vstd::arithmetic::div_mod::lemma_div_is_ordered(sum_of(s) * 1000, n * 65_535_000, n);
    vstd::arithmetic::div_mod::lemma_div_multiples_vanish(65_535_000, n);
    vstd::arithmetic::div_mod::lemma_div_pos_is_pos(sum_of(s) * 1000, n);
}

/// The largest of a range-bounded set of averages stays in range.
proof fn lemma_max_avg_in_range(s: Seq<int>)
    requires
        forall|i: int| 0 <= i < s.len() ==> 0 <= #[trigger] s[i] <= MAX_AVG_MILLI,
    ensures
        0 <= max_avg_of(s) <= MAX_AVG_MILLI,
    decreases s.len(),
{
    if s.len() > 0 {
        lemma_max_avg_in_range(s.drop_last());
    }
}

/// The maximum figure really is the largest retained sample: no sample
/// exceeds it, and some retained sample attains it whenever the window
/// is not empty.
pub proof fn lemma_max_is_largest_retained(s: Seq<u16>)
    ensures
        forall|i: int| 0 <= i < s.len() ==> #[trigger] s[i] <= max_of(s),
        s.len() > 0 ==> s.contains(max_of(s)),
    decreases s.len(),
{
    if s.len() > 0 {
        lemma_max_is_largest_retained(s.drop_last());
        assert forall|i: int| 0 <= i < s.len() implies #[trigger] s[i] <= max_of(s) by {
            if i < s.len() - 1 {
                assert(s[i] == s.drop_last()[i]);
            }
        }
        if s.last() >= max_of(s.drop_last()) {
            assert(s[s.len() - 1] == max_of(s));
        } else {
            assert(s.drop_last().contains(max_of(s)));
            let j = choose|j: int|
                0 <= j < s.drop_last().len() && s.drop_last()[j] == max_of(s);
            assert(s[j] == max_of(s));
        }
    }
}

/// A uniform window of value `v` sums to its length times `v`.
proof fn lemma_sum_uniform(s: Seq<u16>, v: u16)
    requires
        forall|i: int| 0 <= i < s.len() ==> #[trigger] s[i] == v,
    ensures
        sum_of(s) == s.len() * v,
    decreases s.len(),
{
    if s.len() > 0 {
        assert(forall|i: int|
            0 <= i < s.drop_last().len() ==> #[trigger] s.drop_last()[i] == v);
        lemma_sum_uniform(s.drop_last(), v);
        assert(s.last() == s[s.len() - 1]);
        assert(s.len() * v == (s.len() - 1) * v + v) by (nonlinear_arith);
    }
}

/// Storing a window full of one identical sample `v` yields an average
/// speed of exactly `v`, converted by the calibration factor.
pub proof fn lemma_avg_speed_uniform_window(h: &WindDataHistory, v: u16)
    requires
        h.wf(),
        h.speeds().len() > 0,
        forall|i: int| 0 <= i < h.speeds().len() ==> #[trigger] h.speeds()[i] == v,
    ensures
        h.spec_avg_speed() == spec_rpm_to_kmh(v as int * 1000),
{
    let s = h.speeds();
    let n = s.len() as int;
    lemma_sum_uniform(s, v);
    assert(n * v * 1000 == n * (v * 1000)) by (nonlinear_arith);
    vstd::arithmetic::div_mod::lemma_div_multiples_vanish(v as int * 1000, n);
}

/// The maximum speed is the single largest raw sample the full window
/// currently retains, converted by the calibration factor: no retained
/// sample converts to more, some retained sample attains it while the
/// window is not empty, and an empty window yields zero.
pub proof fn lemma_max_speed_is_largest_sample(h: &WindDataHistory)
    requires
        h.wf(),
    ensures
        forall|i: int|
            0 <= i < h.speeds().len() ==> spec_rpm_to_kmh(#[trigger] h.speeds()[i] * 1000)
                <= h.spec_max_speed(),
        h.speeds().len() > 0 ==> exists|i: int|
            0 <= i < h.speeds().len() && h.spec_max_speed() == spec_rpm_to_kmh(
                #[trigger] h.speeds()[i] * 1000,
            ),
        h.speeds().len() == 0 ==> h.spec_max_speed() == 0,
{
    let s = h.speeds();
    let m = max_of(s) as int;
    lemma_max_is_largest_retained(s);
    assert forall|i: int|
        0 <= i < s.len() implies spec_rpm_to_kmh(#[trigger] s[i] * 1000)
        <= h.spec_max_speed() by {
        lemma_rpm_to_kmh_monotone(s[i] as int * 1000, m * 1000);
    }
    if s.len() > 0 {
        let j = choose|j: int| 0 <= j < s.len() && s[j] == max_of(s);
        assert(h.spec_max_speed() == spec_rpm_to_kmh(s[j] * 1000));
    }
}

/// The calibration conversion is monotone.
proof fn lemma_rpm_to_kmh_monotone(a: int, b: int)
    requires
        a <= b,
    ensures
        spec_rpm_to_kmh(a) <= spec_rpm_to_kmh(b),
{
    vstd::arithmetic::mul::lemma_mul_inequality(a, b, RPM_TO_KMH_MILLI as int);
    vstd::arithmetic::div_mod::lemma_div_is_ordered(
        a * (RPM_TO_KMH_MILLI as int),
        b * (RPM_TO_KMH_MILLI as int),
        1000,
    );
}

/// The gust peak equals the largest sub-window average observed since
/// the last clear: it is unaffected by later, lower averages, and only
/// `clear_wind_gust` resets it.
pub proof fn lemma_gust_peak_is_observed_maximum(h: &WindDataHistory)
    requires
        h.wf(),
    ensures
        h.gust_peak() == max_avg_of(h.observed_gust_averages()),
{
}

} // verus!
