//! The monitor's mode/threshold state machine.
//!
//! The machine owns the operating mode, the last-observed sensor readings,
//! and the per-sensor threshold ranges. Readings and thresholds are carried
//! as fixed-point integers in hundredths of the displayed unit
//! (centi-degrees for temperature, centi-ratio for light and humidity), so
//! two-decimal rendering is exact.

use vstd::prelude::*;
use crate::buffer::OutBuf;
use crate::buffer::BUF_CAP;
use crate::buffer::buf_new;
use crate::buffer::buf_clear;
use crate::buffer::buf_push_str;
use crate::buffer::buf_as_str;
use crate::buffer::buf_text;
use crate::buffer::buf_used;
use crate::numfmt::fmt_centi;
use crate::numfmt::fmt_centi_pad5;
use crate::numfmt::push_centi;
use crate::numfmt::push_centi_pad5;

verus! {

/// One more than the highest raw magnitude the analog converter reports:
/// a raw sample lies in `[0, ADC_MAX - 1]` and maps to the ratio
/// `raw / ADC_MAX`.
pub const ADC_MAX: u16 = 4096;

/// The three monitored quantities, with a cyclic order used when stepping
/// through the configurable thresholds.
#[derive(Clone, Copy, PartialEq, Eq, Structural, Debug)]
pub enum Sensor {
    Temperature,
    Light,
    Humidity,
}

/// Cyclic successor: Temperature -> Light -> Humidity -> Temperature.
pub open spec fn next_sensor(s: Sensor) -> Sensor {
    match s {
        Sensor::Temperature => Sensor::Light,
        Sensor::Light => Sensor::Humidity,
        Sensor::Humidity => Sensor::Temperature,
    }
}

impl Sensor {
    /// The cyclically next sensor in the configuration tour.
    pub fn next(&self) -> (r: Self)
        ensures
            r == next_sensor(*self),
    {
        match self {
            Self::Temperature => Self::Light,
            Self::Light => Self::Humidity,
            Self::Humidity => Self::Temperature,
        }
    }
}

/// Which edge of a sensor's acceptable range is selected.
#[derive(Clone, Copy, PartialEq, Eq, Structural, Debug)]
pub enum Variant {
    Min,
    Max,
}

/// The machine's discriminant: showing live measurements, or editing one
/// (sensor, bound) threshold edge.
#[derive(Clone, Copy, PartialEq, Eq, Structural, Debug)]
pub enum Task {
    Measuring,
    Configuring(Sensor, Variant),
}

/// Acceptable range for one sensor, both edges in centi-units.
/// No ordering between the edges is enforced: an inverted range simply
/// makes every reading out of range.
#[derive(Clone, Copy, PartialEq, Eq, Structural, Debug)]
pub struct SensorConfig {
    pub min: i32,
    pub max: i32,
}

impl SensorConfig {
    fn new(min: i32, max: i32) -> (r: Self)
        ensures
            r == (SensorConfig { min, max }),
    {
        Self { min, max }
    }
}

/// Mode transition taken on the mode button: measuring enters the
/// configuration tour at its first stop, any configuring state returns
/// to measuring.
pub open spec fn switch_spec(t: Task) -> Task {
    match t {
        Task::Measuring => Task::Configuring(Sensor::Temperature, Variant::Min),
        Task::Configuring(_, _) => Task::Measuring,
    }
}

/// Field-advance transition: Min -> Max on the same sensor, Max -> Min on
/// the cyclically next sensor; no effect while measuring.
pub open spec fn progress_spec(t: Task) -> Task {
    match t {
        Task::Measuring => Task::Measuring,
        Task::Configuring(sensor, Variant::Min) => Task::Configuring(sensor, Variant::Max),
        Task::Configuring(sensor, Variant::Max) => Task::Configuring(
            next_sensor(sensor),
            Variant::Min,
        ),
    }
}

/// A raw analog magnitude in `[0, ADC_MAX - 1]` as a centi-ratio in
/// `[0, 100]`: `raw / ADC_MAX` (or its complement when the signal runs
/// inverse to the quantity), scaled to hundredths and truncated.
pub open spec fn adc_ratio_centi(raw_read: u16, inversed: bool) -> int {
    if inversed {
        ((ADC_MAX - raw_read) * 100) as int / ADC_MAX as int
    } else {
        (raw_read * 100) as int / ADC_MAX as int
    }
}

/// Centi-units of a sensor's displayed quantity per full analog range:
/// a full-scale sample configures 100 degrees for temperature and a
/// ratio of 1 for light and humidity.
pub open spec fn scale_centi(s: Sensor) -> int {
    match s {
        Sensor::Temperature => 10000,
        Sensor::Light => 100,
        Sensor::Humidity => 100,
    }
}

/// The centi-unit threshold a raw sample configures for a sensor:
/// `(raw / ADC_MAX) * scale`, computed exactly and truncated to
/// hundredths.
pub open spec fn commit_centi(level: u16, s: Sensor) -> int {
    (level as int * scale_centi(s)) / (ADC_MAX as int)
}

/// The monitor's aggregate state: one instance, owned by the control
/// loop, mutated in place every poll cycle.
pub struct State {
    pub task: Task,
    pub out_str: OutBuf,
    /// Temperature reading, centi-degrees.
    pub temp: i32,
    /// Light reading, centi-ratio in `[0, 100]`.
    pub light: i32,
    /// Humidity reading, centi-ratio in `[0, 100]`.
    pub humidity: i32,
    pub temp_cfg: SensorConfig,
    pub light_cfg: SensorConfig,
    pub humidity_cfg: SensorConfig,
}

/// The state after a configuration sample: while configuring, exactly the
/// selected threshold edge is overwritten with the scaled sample; while
/// measuring the sample is ignored.
pub open spec fn commit_spec(s: State, level: u16) -> State {
    match s.task {
        Task::Measuring => s,
        Task::Configuring(Sensor::Temperature, Variant::Min) => State {
            temp_cfg: SensorConfig { min: commit_centi(level, Sensor::Temperature) as i32, ..s.temp_cfg },
            ..s
        },
        Task::Configuring(Sensor::Temperature, Variant::Max) => State {
            temp_cfg: SensorConfig { max: commit_centi(level, Sensor::Temperature) as i32, ..s.temp_cfg },
            ..s
        },
        Task::Configuring(Sensor::Light, Variant::Min) => State {
            light_cfg: SensorConfig { min: commit_centi(level, Sensor::Light) as i32, ..s.light_cfg },
            ..s
        },
        Task::Configuring(Sensor::Light, Variant::Max) => State {
            light_cfg: SensorConfig { max: commit_centi(level, Sensor::Light) as i32, ..s.light_cfg },
            ..s
        },
        Task::Configuring(Sensor::Humidity, Variant::Min) => State {
            humidity_cfg: SensorConfig { min: commit_centi(level, Sensor::Humidity) as i32, ..s.humidity_cfg },
            ..s
        },
        Task::Configuring(Sensor::Humidity, Variant::Max) => State {
            humidity_cfg: SensorConfig { max: commit_centi(level, Sensor::Humidity) as i32, ..s.humidity_cfg },
            ..s
        },
    }
}

/// The state after a measurement sample: while measuring, the three
/// readings are replaced (light as a direct ratio, humidity as the
/// inverted ratio) and everything else is unchanged; while configuring
/// the samples are ignored.
pub open spec fn ingest_spec(s: State, temp: i32, light: u16, humidity: u16) -> State {
    match s.task {
        Task::Measuring => State {
            temp: temp,
            light: adc_ratio_centi(light, false) as i32,
            humidity: adc_ratio_centi(humidity, true) as i32,
            ..s
        },
        Task::Configuring(_, _) => s,
    }
}

/// The part of the state a render depends on and preserves: everything
/// but the render buffer itself.
pub open spec fn same_core(a: State, b: State) -> bool {
    a.task == b.task && a.temp == b.temp && a.light == b.light && a.humidity == b.humidity
        && a.temp_cfg == b.temp_cfg && a.light_cfg == b.light_cfg && a.humidity_cfg
        == b.humidity_cfg
}

/// One measuring-screen row: label, reading with two decimals, newline.
pub open spec fn meas_row(label: Seq<char>, v: int) -> Seq<char> {
    label + fmt_centi(v) + "\n"@
}

/// Marker slot ahead of one bound cell: `>` on the cell being edited, a
/// space on the other cells of the edited column (keeping that column's
/// alignment), nothing in the other column.
pub open spec fn slot(t: Task, s: Sensor, v: Variant) -> Seq<char> {
    match t {
        Task::Measuring => Seq::<char>::empty(),
        Task::Configuring(es, ev) => if v == ev {
            if s == es {
                seq!['>']
            } else {
                seq![' ']
            }
        } else {
            Seq::<char>::empty()
        },
    }
}

/// Marker slot ahead of one column header: a space in the edited column,
/// nothing in the other.
pub open spec fn hdr_slot(t: Task, v: Variant) -> Seq<char> {
    match t {
        Task::Measuring => Seq::<char>::empty(),
        Task::Configuring(_, ev) => if v == ev {
            seq![' ']
        } else {
            Seq::<char>::empty()
        },
    }
}

/// One configuring-screen row: label, marked five-wide min cell, space,
/// marked five-wide max cell, newline.
pub open spec fn cfg_row(label: Seq<char>, t: Task, s: Sensor, c: SensorConfig) -> Seq<char> {
    label + slot(t, s, Variant::Min) + fmt_centi_pad5(c.min as int) + " "@ + slot(
        t,
        s,
        Variant::Max,
    ) + fmt_centi_pad5(c.max as int) + "\n"@
}

/// The full rendered snapshot: a measuring screen lists the three
/// readings; a configuring screen lists both bounds of every sensor with
/// the edit marker ahead of exactly the selected cell.
pub open spec fn render_spec(s: State) -> Seq<char> {
    match s.task {
        Task::Measuring => "MEASURING\n\n"@ + "         Value\n"@ + meas_row(
            "Temp     "@,
            s.temp as int,
        ) + meas_row("Light    "@, s.light as int) + meas_row("Humidity "@, s.humidity as int),
        Task::Configuring(_, _) => "CONFIGURING\n\n"@ + "          "@ + hdr_slot(
            s.task,
            Variant::Min,
        ) + "Min    "@ + hdr_slot(s.task, Variant::Max) + "Max\n"@ + cfg_row(
            "Temp     "@,
            s.task,
            Sensor::Temperature,
            s.temp_cfg,
        ) + cfg_row("Light    "@, s.task, Sensor::Light, s.light_cfg) + cfg_row(
            "Humidity "@,
            s.task,
            Sensor::Humidity,
            s.humidity_cfg,
        ),
    }
}

/// A reading lies strictly outside its configured range.
pub open spec fn bad_level_spec(s: State) -> bool {
    s.temp < s.temp_cfg.min || s.light < s.light_cfg.min || s.humidity < s.humidity_cfg.min
        || s.temp > s.temp_cfg.max || s.light > s.light_cfg.max || s.humidity > s.humidity_cfg.max
}

impl State {
    /// The startup state: measuring, zeroed readings, default thresholds
    /// of 15-40 degrees for temperature and 0-0.7 ratio for light and
    /// humidity.
    pub fn new() -> (r: Self)
        ensures
            r.task == Task::Measuring,
            r.temp == 0 && r.light == 0 && r.humidity == 0,
            r.temp_cfg == (SensorConfig { min: 1500, max: 4000 }),
            r.light_cfg == (SensorConfig { min: 0, max: 70 }),
            r.humidity_cfg == (SensorConfig { min: 0, max: 70 }),
            buf_text(r.out_str) == Seq::<char>::empty(),
            buf_used(r.out_str) == 0,
    {
        Self {
            task: Task::Measuring,
            out_str: buf_new(),
            temp: 0,
            light: 0,
            humidity: 0,
            temp_cfg: SensorConfig::new(1500, 4000),
            light_cfg: SensorConfig::new(0, 70),
            humidity_cfg: SensorConfig::new(0, 70),
        }
    }

    /// Whether the machine is in measuring mode.
    pub fn is_measuring(&self) -> (r: bool)
        ensures
            r == (self.task == Task::Measuring),
    {
        match self.task {
            Task::Measuring => true,
            _ => false,
        }
    }

    /// The alarm condition: true exactly when some reading lies strictly
    /// outside its configured range.
    pub fn bad_level(&self) -> (r: bool)
        ensures
            r == bad_level_spec(*self),
    {
        if self.temp < self.temp_cfg.min
            || self.light < self.light_cfg.min
            || self.humidity < self.humidity_cfg.min
            || self.temp > self.temp_cfg.max
            || self.light > self.light_cfg.max
            || self.humidity > self.humidity_cfg.max
        {
            return true;
        }
        return false;
    }

    /// Accept one analog sample as a threshold value: while configuring,
    /// overwrite the selected edge with the scaled sample; while
    /// measuring, do nothing.
    pub fn update_config(&mut self, level: u16)
        requires
            level < ADC_MAX,
        ensures
            *final(self) == commit_spec(*old(self), level),
    {
        let scaled: u32 = (level as u32) * 100 / (ADC_MAX as u32);
        let scaled_temp: u32 = (level as u32) * 10000 / (ADC_MAX as u32);
        match self.task {
            Task::Configuring(Sensor::Temperature, Variant::Min) => {
                self.temp_cfg.min = scaled_temp as i32;
            }
            Task::Configuring(Sensor::Temperature, Variant::Max) => {
                self.temp_cfg.max = scaled_temp as i32;
            }
            Task::Configuring(Sensor::Light, Variant::Min) => {
                self.light_cfg.min = scaled as i32;
            }
            Task::Configuring(Sensor::Light, Variant::Max) => {
                self.light_cfg.max = scaled as i32;
            }
            Task::Configuring(Sensor::Humidity, Variant::Min) => {
                self.humidity_cfg.min = scaled as i32;
            }
            Task::Configuring(Sensor::Humidity, Variant::Max) => {
                self.humidity_cfg.max = scaled as i32;
            }
            _ => {}
        }
    }

    /// Accept fresh sensor samples: while measuring, store the
    /// temperature as given (already in centi-degrees) and the two raw
    /// analog magnitudes as centi-ratios, humidity inverted; while
    /// configuring, do nothing.
    pub fn update_measurements(&mut self, temp: i32, light: u16, humidity: u16)
        requires
            light < ADC_MAX,
            humidity < ADC_MAX,
        ensures
            *final(self) == ingest_spec(*old(self), temp, light, humidity),
    {
        match self.task {
            Task::Measuring => {
                self.temp = temp;
                self.light = adc_ratio(light, false);
                self.humidity = adc_ratio(humidity, true);
            }
            Task::Configuring(_, _) => {}
        }
    }

    /// Advance the edited (sensor, bound) pair one step along the fixed
    /// six-stop tour; no effect while measuring.
    pub fn progress(&mut self)
        ensures
            *final(self) == (State { task: progress_spec(old(self).task), ..*old(self) }),
    {
        self.task = match self.task {
            Task::Measuring => Task::Measuring,
            Task::Configuring(sensor, Variant::Min) => Task::Configuring(sensor, Variant::Max),
            Task::Configuring(sensor, Variant::Max) => {
                Task::Configuring(sensor.next(), Variant::Min)
            }
        }
    }

    /// Toggle between measuring and configuring; entering configuration
    /// always starts at the first stop of the tour.
    pub fn switch(&mut self)
        ensures
            *final(self) == (State { task: switch_spec(old(self).task), ..*old(self) }),
    {
        self.task = match self.task {
            Task::Measuring => Task::Configuring(Sensor::Temperature, Variant::Min),
            Task::Configuring(_, _) => Task::Measuring,
        }
    }

    /// Render the current snapshot into the reused fixed-capacity buffer
    /// and return it. Rendering reads only the mode, the readings and the
    /// thresholds, and leaves all of them unchanged, so repeated calls
    /// without intervening mutation return identical text.
    pub fn get_repr(&mut self) -> (r: &str)
        ensures
            r@ == render_spec(*old(self)),
            buf_text(final(self).out_str) == render_spec(*old(self)),
            same_core(*final(self), *old(self)),
    {
        buf_clear(&mut self.out_str);
        let t = self.task;
        match t {
            Task::Measuring => {
                proof {
                    reveal_strlit("MEASURING\n\n");
                    reveal_strlit("         Value\n");
                    reveal_strlit("Temp     ");
                    reveal_strlit("Light    ");
                    reveal_strlit("Humidity ");
                }
                buf_push_str(&mut self.out_str, "MEASURING\n\n");
                proof {
                    assert(buf_text(self.out_str) =~= "MEASURING\n\n"@);
                }
                buf_push_str(&mut self.out_str, "         Value\n");
                push_meas_row(&mut self.out_str, "Temp     ", self.temp);
                push_meas_row(&mut self.out_str, "Light    ", self.light);
                push_meas_row(&mut self.out_str, "Humidity ", self.humidity);
                proof {
                    assert(buf_text(self.out_str) =~= render_spec(*old(self)));
                }
            },
            Task::Configuring(_, _) => {
                proof {
                    reveal_strlit("CONFIGURING\n\n");
                    reveal_strlit("          ");
                    reveal_strlit("Min    ");
                    reveal_strlit("Max\n");
                    reveal_strlit("Temp     ");
                    reveal_strlit("Light    ");
                    reveal_strlit("Humidity ");
                }
                buf_push_str(&mut self.out_str, "CONFIGURING\n\n");
                proof {
                    assert(buf_text(self.out_str) =~= "CONFIGURING\n\n"@);
                }
                buf_push_str(&mut self.out_str, "          ");
                push_hdr_slot(&mut self.out_str, t, Variant::Min);
                buf_push_str(&mut self.out_str, "Min    ");
                push_hdr_slot(&mut self.out_str, t, Variant::Max);
                buf_push_str(&mut self.out_str, "Max\n");
                push_cfg_row(&mut self.out_str, "Temp     ", t, Sensor::Temperature, self.temp_cfg);
                push_cfg_row(&mut self.out_str, "Light    ", t, Sensor::Light, self.light_cfg);
                push_cfg_row(
                    &mut self.out_str,
                    "Humidity ",
                    t,
                    Sensor::Humidity,
                    self.humidity_cfg,
                );
                proof {
                    assert(buf_text(self.out_str) =~= render_spec(*old(self)));
                }
            },
        }
        buf_as_str(&self.out_str)
    }
}

/// Append one bound-cell marker slot.
fn push_slot(b: &mut OutBuf, t: Task, s: Sensor, v: Variant)
    requires
        buf_used(*old(b)) + 1 <= BUF_CAP,
    ensures
        buf_text(*final(b)) == buf_text(*old(b)) + slot(t, s, v),
        buf_used(*final(b)) == buf_used(*old(b)) + slot(t, s, v).len(),
        slot(t, s, v).len() <= 1,
{
    match t {
        Task::Measuring => {},
        Task::Configuring(es, ev) => {
            if v == ev {
                if s == es {
                    proof {
                        reveal_strlit(">");
                    }
                    buf_push_str(b, ">");
                } else {
                    proof {
                        reveal_strlit(" ");
                    }
                    buf_push_str(b, " ");
                }
            }
        },
    }
    proof {
        assert(buf_text(*b) =~= buf_text(*old(b)) + slot(t, s, v));
    }
}

/// Append one column-header marker slot.
fn push_hdr_slot(b: &mut OutBuf, t: Task, v: Variant)
    requires
        buf_used(*old(b)) + 1 <= BUF_CAP,
    ensures
        buf_text(*final(b)) == buf_text(*old(b)) + hdr_slot(t, v),
        buf_used(*final(b)) == buf_used(*old(b)) + hdr_slot(t, v).len(),
        hdr_slot(t, v).len() <= 1,
{
    match t {
        Task::Measuring => {},
        Task::Configuring(_, ev) => {
            if v == ev {
                proof {
                    reveal_strlit(" ");
                }
                buf_push_str(b, " ");
            }
        },
    }
    proof {
        assert(buf_text(*b) =~= buf_text(*old(b)) + hdr_slot(t, v));
    }
}

/// Append one measuring-screen row.
fn push_meas_row(b: &mut OutBuf, label: &str, v: i32)
    requires
        label.is_ascii(),
        label@.len() == 9,
        buf_used(*old(b)) + 24 <= BUF_CAP,
    ensures
        buf_text(*final(b)) == buf_text(*old(b)) + meas_row(label@, v as int),
        buf_used(*final(b)) == buf_used(*old(b)) + meas_row(label@, v as int).len(),
        meas_row(label@, v as int).len() <= 24,
{
    buf_push_str(b, label);
    push_centi(b, v);
    proof {
        reveal_strlit("\n");
    }
    buf_push_str(b, "\n");
    proof {
        assert(buf_text(*b) =~= buf_text(*old(b)) + meas_row(label@, v as int));
    }
}

/// Append one configuring-screen row.
fn push_cfg_row(b: &mut OutBuf, label: &str, t: Task, s: Sensor, c: SensorConfig)
    requires
        label.is_ascii(),
        label@.len() == 9,
        buf_used(*old(b)) + 43 <= BUF_CAP,
    ensures
        buf_text(*final(b)) == buf_text(*old(b)) + cfg_row(label@, t, s, c),
        buf_used(*final(b)) == buf_used(*old(b)) + cfg_row(label@, t, s, c).len(),
        cfg_row(label@, t, s, c).len() <= 43,
{
    buf_push_str(b, label);
    push_slot(b, t, s, Variant::Min);
    push_centi_pad5(b, c.min);
    proof {
        reveal_strlit(" ");
    }
    buf_push_str(b, " ");
    push_slot(b, t, s, Variant::Max);
    push_centi_pad5(b, c.max);
    proof {
        reveal_strlit("\n");
    }
    buf_push_str(b, "\n");
    proof {
        assert(buf_text(*b) =~= buf_text(*old(b)) + cfg_row(label@, t, s, c));
    }
}

/// A raw analog magnitude as a centi-ratio, optionally inverted.
fn adc_ratio(raw_read: u16, inversed: bool) -> (r: i32)
    requires
        raw_read < ADC_MAX,
    ensures
        r == adc_ratio_centi(raw_read, inversed),
        0 <= r <= 100,
{
    let measurement: u16 = match inversed {
        true => ADC_MAX - raw_read,
        false => raw_read,
    };
    proof {
        assert((measurement as int * 100) / 4096 <= 100) by (nonlinear_arith)
            requires
                measurement <= 4096,
        ;
    }
    ((measurement as u32) * 100 / (ADC_MAX as u32)) as i32
}

} // verus!
