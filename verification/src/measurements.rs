//! Sensor readings and the data transform: sorting by time (most recent
//! first) and projecting readings into plot coordinates and display rows.

use crate::numfmt::{dec_digits, dec_text, i64_to_string, u64_to_string};
use vstd::multiset::Multiset;
use vstd::prelude::*;
use vstd::string::*;

verus! {

/// A fixed-point temperature in degrees Celsius: the value is
/// `mantissa * 10^(-scale)`, mirroring how the sensor service reports
/// decimal temperatures.
#[derive(Clone, Copy, PartialEq, Eq, Structural, Debug)]
pub struct TempCelsius {
    pub mantissa: i64,
    pub scale: u32,
}

/// A single timestamped temperature reading. The time is in whole seconds
/// since the Unix epoch, UTC.
#[derive(Clone, Copy, PartialEq, Eq, Structural, Debug)]
pub struct SensorTempMeasurement {
    pub temp_celsius: TempCelsius,
    pub measure_time: i64,
}

/// The readings of one fetch, replaced wholesale on each successful fetch.
#[derive(Clone, Debug)]
pub struct SensorTempMeasurements {
    pub temp_measurements: Vec<SensorTempMeasurement>,
}

/// Readings are in descending time order: most recent first.
pub open spec fn sorted_desc(s: Seq<SensorTempMeasurement>) -> bool {
    forall|i: int, j: int|
        0 <= i <= j < s.len() ==> s[i].measure_time >= s[j].measure_time
}

/// A run of `k` zero characters (empty for `k <= 0`).
pub open spec fn zeros(k: int) -> Seq<char>
    decreases k,
{
    if k <= 0 {
        Seq::empty()
    } else {
        zeros(k - 1) + seq!['0']
    }
}

/// The decimal text of a fixed-point temperature: the mantissa's digits
/// with a point inserted `scale` places from the right, zero-padded so the
/// integer part is never empty, and a leading `'-'` when negative.
pub open spec fn temp_text(t: TempCelsius) -> Seq<char> {
    let sign: Seq<char> = if t.mantissa < 0 {
        seq!['-']
    } else {
        Seq::empty()
    };
    let digs = dec_digits(if t.mantissa < 0 {
        -(t.mantissa as int)
    } else {
        t.mantissa as int
    });
    if t.scale == 0 {
        sign + digs
    } else if digs.len() > t.scale {
        sign + digs.subrange(0, digs.len() - t.scale) + seq!['.'] + digs.subrange(
            digs.len() - t.scale,
            digs.len() as int,
        )
    } else {
        sign + seq!['0', '.'] + zeros(t.scale - digs.len()) + digs
    }
}

impl TempCelsius {
    /// Render the temperature as decimal text, e.g. `"21.5"` or `"-0.25"`.
    pub fn text(&self) -> (r: String)
        ensures
            r@ == temp_text(*self),
    {
        let (neg, mag): (bool, u64) = if self.mantissa < 0 {
            (true, ((-(self.mantissa + 1)) as u64) + 1)
        } else {
            (false, self.mantissa as u64)
        };
        let mut s = if neg {
            let h = String::from_str("-");
            proof {
                reveal_strlit("-");
                assert("-"@ =~= seq!['-']);
            }
            h
        } else {
            String::new()
        };
        let digits = u64_to_string(mag);
        if self.scale == 0 {
            s.append(digits.as_str());
            return s;
        }
        let dlen = digits.as_str().unicode_len();
        let scale = self.scale as usize;
        if dlen > scale {
            s.append(digits.as_str().substring_char(0, dlen - scale));
            s.append(".");
            s.append(digits.as_str().substring_char(dlen - scale, dlen));
            proof {
                reveal_strlit(".");
                assert("."@ =~= seq!['.']);
            }
        } else {
            s.append("0.");
            proof {
                reveal_strlit("0.");
                assert("0."@ =~= seq!['0', '.']);
            }
            let mut k: usize = scale - dlen;
            while k > 0
                invariant
                    k <= self.scale - dlen,
                    s@ == (if neg {
                        seq!['-']
                    } else {
                        Seq::<char>::empty()
                    }) + seq!['0', '.'] + zeros(self.scale - dlen - k),
                decreases k,
            {
                s.append("0");
                proof {
                    reveal_strlit("0");
                    assert("0"@ =~= seq!['0']);
                }
                k -= 1;
            }
            s.append(digits.as_str());
        }
        s
    }
}

/// One plot coordinate: x is whole seconds since the Unix epoch, y the
/// temperature, both still as plain values (the caller turns them into
/// whatever number type its plotting widget wants).
#[derive(Clone, Copy, PartialEq, Eq, Structural, Debug)]
pub struct PlotSample {
    pub seconds_since_epoch: i64,
    pub temp_celsius: TempCelsius,
}

/// The plot coordinate of one reading.
pub open spec fn plot_sample_of(m: SensorTempMeasurement) -> PlotSample {
    PlotSample { seconds_since_epoch: m.measure_time, temp_celsius: m.temp_celsius }
}

/// The plot projection of a whole sequence of readings, in order.
pub open spec fn plot_seq(s: Seq<SensorTempMeasurement>) -> Seq<PlotSample> {
    s.map_values(|m: SensorTempMeasurement| plot_sample_of(m))
}

/// The display row of one reading.
pub open spec fn row_text(m: SensorTempMeasurement) -> Seq<char> {
    "temp: "@ + temp_text(m.temp_celsius) + " C | time: "@ + dec_text(m.measure_time as int)
}

/// The display rows of a whole sequence of readings, in order.
pub open spec fn rows_seq(s: Seq<SensorTempMeasurement>) -> Seq<Seq<char>> {
    s.map_values(|m: SensorTempMeasurement| row_text(m))
}

/// Projecting no readings yields no plot points and no display rows.
pub proof fn lemma_empty_transform(s: Seq<SensorTempMeasurement>)
    requires
        s.len() == 0,
    ensures
        plot_seq(s) =~= Seq::<PlotSample>::empty(),
        rows_seq(s) =~= Seq::<Seq<char>>::empty(),
{
}

/// For three readings with strictly increasing timestamps, any reordering
/// that is sorted most-recent-first and keeps the multiset of entries — as
/// `sort_descending` promises — is exactly the reverse of the input.
pub proof fn lemma_three_readings_reversed(
    s: Seq<SensorTempMeasurement>,
    t: Seq<SensorTempMeasurement>,
)
    requires
        s.len() == 3,
        s[0].measure_time < s[1].measure_time,
        s[1].measure_time < s[2].measure_time,
        sorted_desc(t),
        t.to_multiset() == s.to_multiset(),
    ensures
        t =~= seq![s[2], s[1], s[0]],
{
    broadcast use vstd::seq_lib::group_to_multiset_ensures;

    assert(s.to_multiset().len() == s.len());
    assert(t.to_multiset().len() == t.len());
    assert(t.len() == 3);
    assert(s =~= Seq::empty().push(s[0]).push(s[1]).push(s[2]));
    assert(t =~= Seq::empty().push(t[0]).push(t[1]).push(t[2]));
    assert(s.to_multiset() =~= Multiset::empty().insert(s[0]).insert(s[1]).insert(s[2]));
    assert(t.to_multiset() =~= Multiset::empty().insert(t[0]).insert(t[1]).insert(t[2]));
    assert(t.contains(t[0]) && t.contains(t[1]) && t.contains(t[2]));
    assert(t.to_multiset().count(t[0]) > 0);
    assert(t.to_multiset().count(t[1]) > 0);
    assert(t.to_multiset().count(t[2]) > 0);
    assert(s.to_multiset().count(t[0]) > 0 && s.to_multiset().count(t[1]) > 0
        && s.to_multiset().count(t[2]) > 0);
    assert(s.contains(t[0]) && s.contains(t[1]) && s.contains(t[2]));
    assert(t.contains(s[0]) && t.contains(s[1]) && t.contains(s[2]));
    assert(s.to_multiset().count(s[0]) == 1);
    assert(s.to_multiset().count(s[1]) == 1);
    assert(s.to_multiset().count(s[2]) == 1);
    assert(t[0] == s[2] && t[1] == s[1] && t[2] == s[0]);
}

/// Swapping two positions of a sequence leaves its multiset unchanged.
proof fn lemma_swap_multiset(s: Seq<SensorTempMeasurement>, p: int, q: int)
    requires
        0 <= p < s.len(),
        0 <= q < s.len(),
        p != q,
    ensures
        s.update(p, s[q]).update(q, s[p]).to_multiset() == s.to_multiset(),
{
    broadcast use vstd::seq_lib::group_to_multiset_ensures;

    let s1 = s.update(p, s[q]);
    assert(s.contains(s[p]));
    assert(s.contains(s[q]));
    assert(s1.to_multiset() == s.to_multiset().insert(s[q]).remove(s[p]));
    assert(s1.update(q, s[p]).to_multiset() == s1.to_multiset().insert(s[p]).remove(s1[q]));
    assert(s.to_multiset().insert(s[q]).remove(s[p]).insert(s[p]).remove(s[q])
        =~= s.to_multiset());
}

impl SensorTempMeasurements {
    /// Sort the readings by `measure_time`, most recent first. No reading
    /// is dropped or duplicated: the multiset of entries is unchanged.
    pub fn sort_descending(&mut self)
        ensures
            sorted_desc(final(self).temp_measurements@),
            final(self).temp_measurements@.to_multiset()
                == old(self).temp_measurements@.to_multiset(),
    {
        let ghost orig = self.temp_measurements@.to_multiset();
        let n = self.temp_measurements.len();
        if n < 2 {
            return ;
        }
        let mut i: usize = 1;
        while i < n
            invariant
                1 <= i <= n,
                self.temp_measurements@.len() == n,
                sorted_desc(self.temp_measurements@.subrange(0, i as int)),
                self.temp_measurements@.to_multiset() == orig,
            decreases n - i,
        {
            proof {
                assert forall|p: int, q: int|
                    0 <= p <= q <= i && p != i && q != i implies self.temp_measurements@[p].measure_time
                    >= self.temp_measurements@[q].measure_time by {
                    assert(self.temp_measurements@.subrange(0, i as int)[p]
                        == self.temp_measurements@[p]);
                    assert(self.temp_measurements@.subrange(0, i as int)[q]
                        == self.temp_measurements@[q]);
                }
            }
            let mut j: usize = i;
            while j > 0 && self.temp_measurements[j - 1].measure_time
                < self.temp_measurements[j].measure_time
                invariant
                    j <= i < n,
                    self.temp_measurements@.len() == n,
                    self.temp_measurements@.to_multiset() == orig,
                    forall|p: int, q: int|
                        0 <= p <= q <= i && p != j && q != j
                            ==> self.temp_measurements@[p].measure_time
                            >= self.temp_measurements@[q].measure_time,
                    forall|q: int|
                        j < q <= i ==> self.temp_measurements@[j as int].measure_time
                            >= self.temp_measurements@[q].measure_time,
                decreases j,
            {
                let a = self.temp_measurements[j - 1];
                let b = self.temp_measurements[j];
                let ghost pre = self.temp_measurements@;
                self.temp_measurements.set(j - 1, b);
                self.temp_measurements.set(j, a);
                proof {
                    assert(self.temp_measurements@
                        =~= pre.update(j - 1, pre[j as int]).update(j as int, pre[j - 1]));
                    lemma_swap_multiset(pre, j - 1, j as int);
                }
                j -= 1;
            }
            proof {
                assert(sorted_desc(self.temp_measurements@.subrange(0, i + 1)));
            }
            i += 1;
        }
        proof {
            assert(self.temp_measurements@.subrange(0, n as int) =~= self.temp_measurements@);
        }
    }

    /// Project every reading to its plot coordinate, keeping the order.
    /// Rebuilt in full on every redraw that shows data.
    pub fn plot_points(&self) -> (r: Vec<PlotSample>)
        ensures
            r@ == plot_seq(self.temp_measurements@),
    {
        let mut out: Vec<PlotSample> = Vec::new();
        let mut k: usize = 0;
        while k < self.temp_measurements.len()
            invariant
                k <= self.temp_measurements@.len(),
                out@.len() == k,
                forall|i: int|
                    0 <= i < k ==> out@[i] == plot_sample_of(self.temp_measurements@[i]),
            decreases self.temp_measurements@.len() - k,
        {
            let m = self.temp_measurements[k];
            out.push(
                PlotSample { seconds_since_epoch: m.measure_time, temp_celsius: m.temp_celsius },
            );
            k += 1;
        }
        proof {
            assert(out@ =~= plot_seq(self.temp_measurements@));
        }
        out
    }

    /// Render every reading as one text row, keeping the order.
    pub fn display_rows(&self) -> (r: Vec<String>)
        ensures
            r@.len() == self.temp_measurements@.len(),
            forall|i: int|
                0 <= i < r@.len() ==> r@[i]@ == rows_seq(self.temp_measurements@)[i],
    {
        let mut out: Vec<String> = Vec::new();
        let mut k: usize = 0;
        while k < self.temp_measurements.len()
            invariant
                k <= self.temp_measurements@.len(),
                out@.len() == k,
                forall|i: int| 0 <= i < k ==> out@[i]@ == row_text(self.temp_measurements@[i]),
            decreases self.temp_measurements@.len() - k,
        {
            let m = self.temp_measurements[k];
            let mut row = String::from_str("temp: ");
            let temp = m.temp_celsius.text();
            row.append(temp.as_str());
            row.append(" C | time: ");
            let time = i64_to_string(m.measure_time);
            row.append(time.as_str());
            out.push(row);
            k += 1;
        }
        out
    }
}

} // verus!
