//! General properties of the state machine, stated and proved once for
//! all states.

use vstd::prelude::*;
use crate::state::Task;
use crate::state::Sensor;
use crate::state::Variant;
use crate::state::State;
use crate::state::SensorConfig;
use crate::state::switch_spec;
use crate::state::progress_spec;
use crate::state::render_spec;
use crate::state::same_core;
use crate::state::meas_row;
use crate::state::cfg_row;
use crate::state::slot;
use crate::state::hdr_slot;
use crate::numfmt::dec_rep;
use crate::numfmt::digit_char;
use crate::numfmt::fmt_centi;
use crate::numfmt::fmt_centi_nonneg;
use crate::numfmt::fmt_centi_pad5;

verus! {

/// The mode button alternates strictly between measuring and
/// configuring: it yields measuring exactly when the machine was
/// configuring; from measuring it always enters the configuration tour
/// at its first stop (Temperature, Min); and two presses from measuring
/// return to measuring.
pub proof fn lemma_switch_alternates(t: Task)
    ensures
        (switch_spec(t) == Task::Measuring) <==> t != Task::Measuring,
        t == Task::Measuring ==> switch_spec(t) == Task::Configuring(
            Sensor::Temperature,
            Variant::Min,
        ),
        t == Task::Measuring ==> switch_spec(switch_spec(t)) == t,
{
}

/// The six stops of the configuration tour, in their fixed order.
pub open spec fn tour_stop(i: int) -> Task {
    if i == 0 {
        Task::Configuring(Sensor::Temperature, Variant::Min)
    } else if i == 1 {
        Task::Configuring(Sensor::Temperature, Variant::Max)
    } else if i == 2 {
        Task::Configuring(Sensor::Light, Variant::Min)
    } else if i == 3 {
        Task::Configuring(Sensor::Light, Variant::Max)
    } else if i == 4 {
        Task::Configuring(Sensor::Humidity, Variant::Min)
    } else {
        Task::Configuring(Sensor::Humidity, Variant::Max)
    }
}

/// The field-advance step does nothing while measuring, and from the
/// `i`-th tour stop moves to the `(i + 1) % 6`-th: it visits all six
/// distinct (sensor, bound) pairs in fixed cyclic order, wrapping after
/// the sixth.
pub proof fn lemma_progress_cycles()
    ensures
        progress_spec(Task::Measuring) == Task::Measuring,
        forall|i: int|
            0 <= i < 6 ==> progress_spec(#[trigger] tour_stop(i)) == tour_stop((i + 1) % 6),
        forall|i: int, j: int|
            0 <= i < 6 && 0 <= j < 6 && i != j ==> #[trigger] tour_stop(i) != #[trigger] tour_stop(
                j,
            ),
{
}

/// `n` field-advance steps in a row.
pub open spec fn progress_n(t: Task, n: nat) -> Task
    decreases n,
{
    if n == 0 {
        t
    } else {
        progress_spec(progress_n(t, (n - 1) as nat))
    }
}

/// Six advances from the first tour stop come back to it.
pub proof fn lemma_progress_wraps()
    ensures
        progress_n(tour_stop(0), 6) == tour_stop(0),
{
    reveal_with_fuel(progress_n, 7);
}

/// Rendering is a function of the mode, the readings and the thresholds
/// alone: states that agree on those render identically. Together with
/// `get_repr`'s contract — it returns the rendering of the pre-state and
/// preserves that core — repeated renders without intervening mutation
/// yield identical text.
pub proof fn lemma_render_idempotent(a: State, b: State)
    requires
        same_core(a, b),
    ensures
        render_spec(a) == render_spec(b),
{
}

/// Number of `>` edit markers in a text.
pub open spec fn marker_count(s: Seq<char>) -> nat
    decreases s.len(),
{
    if s.len() == 0 {
        0
    } else {
        marker_count(s.drop_last()) + (if s.last() == '>' {
            1nat
        } else {
            0nat
        })
    }
}

/// Markers in a concatenation are the markers of the parts.
proof fn lemma_marker_count_add(a: Seq<char>, b: Seq<char>)
    ensures
        marker_count(a + b) == marker_count(a) + marker_count(b),
    decreases b.len(),
{
    if b.len() == 0 {
        assert(a + b =~= a);
    } else {
        lemma_marker_count_add(a, b.drop_last());
        assert((a + b).drop_last() =~= a + b.drop_last());
        assert((a + b).last() == b.last());
    }
}

/// The marker count of a one-character text is its one indicator.
proof fn lemma_marker_count_single(c: char)
    ensures
        marker_count(seq![c]) == (if c == '>' {
            1nat
        } else {
            0nat
        }),
{
    assert(seq![c].drop_last() =~= Seq::<char>::empty());
    assert(marker_count(Seq::<char>::empty()) == 0);
    assert(seq![c].last() == c);
}

/// A text none of whose characters is `>` has no marker.
proof fn lemma_marker_count_zero(s: Seq<char>)
    requires
        forall|i: int| 0 <= i < s.len() ==> s[i] != '>',
    ensures
        marker_count(s) == 0,
    decreases s.len(),
{
    if s.len() > 0 {
        lemma_marker_count_zero(s.drop_last());
    }
}

/// Decimal digits carry no marker.
proof fn lemma_dec_rep_no_marker(n: nat)
    ensures
        marker_count(dec_rep(n)) == 0,
    decreases n,
{
    if n < 10 {
        lemma_marker_count_single(digit_char(n as int));
    } else {
        lemma_dec_rep_no_marker(n / 10);
        lemma_marker_count_single(digit_char((n % 10) as int));
        lemma_marker_count_add(dec_rep(n / 10), seq![digit_char((n % 10) as int)]);
    }
}

/// A formatted number carries no marker.
proof fn lemma_fmt_no_marker(v: int)
    ensures
        marker_count(fmt_centi(v)) == 0,
        marker_count(fmt_centi_pad5(v)) == 0,
{
    let n = if v < 0 {
        -v
    } else {
        v
    };
    lemma_dec_rep_no_marker((n / 100) as nat);
    let tail = seq!['.', digit_char((n % 100) / 10), digit_char(n % 10)];
    lemma_marker_count_zero(tail);
    lemma_marker_count_add(dec_rep((n / 100) as nat), tail);
    assert(marker_count(fmt_centi_nonneg(n)) == 0);
    if v < 0 {
        lemma_marker_count_zero(seq!['-']);
        lemma_marker_count_add(seq!['-'], fmt_centi_nonneg(n));
    }
    if fmt_centi(v).len() < 5 {
        lemma_marker_count_zero(seq![' ']);
        lemma_marker_count_add(seq![' '], fmt_centi(v));
    }
}

/// A bound-cell marker slot carries a marker exactly on the edited cell.
proof fn lemma_slot_marker(t: Task, s: Sensor, v: Variant)
    ensures
        marker_count(slot(t, s, v)) == if t == Task::Configuring(s, v) {
            1nat
        } else {
            0nat
        },
        marker_count(hdr_slot(t, v)) == 0,
{
    lemma_marker_count_single('>');
    lemma_marker_count_single(' ');
    assert(marker_count(Seq::<char>::empty()) == 0);
}

/// One configuring-screen row carries a marker exactly when its sensor
/// holds the edited cell.
proof fn lemma_cfg_row_marker(label: Seq<char>, t: Task, s: Sensor, c: SensorConfig)
    requires
        forall|i: int| 0 <= i < label.len() ==> label[i] != '>',
    ensures
        marker_count(cfg_row(label, t, s, c)) == marker_count(slot(t, s, Variant::Min))
            + marker_count(slot(t, s, Variant::Max)),
{
    reveal_strlit(" ");
    reveal_strlit("\n");
    lemma_marker_count_zero(label);
    lemma_fmt_no_marker(c.min as int);
    lemma_fmt_no_marker(c.max as int);
    lemma_marker_count_zero(" "@);
    lemma_marker_count_zero("\n"@);
    lemma_marker_count_add(label, slot(t, s, Variant::Min));
    lemma_marker_count_add(label + slot(t, s, Variant::Min), fmt_centi_pad5(c.min as int));
    lemma_marker_count_add(label + slot(t, s, Variant::Min) + fmt_centi_pad5(c.min as int), " "@);
    lemma_marker_count_add(
        label + slot(t, s, Variant::Min) + fmt_centi_pad5(c.min as int) + " "@,
        slot(t, s, Variant::Max),
    );
    lemma_marker_count_add(
        label + slot(t, s, Variant::Min) + fmt_centi_pad5(c.min as int) + " "@ + slot(
            t,
            s,
            Variant::Max,
        ),
        fmt_centi_pad5(c.max as int),
    );
    lemma_marker_count_add(
        label + slot(t, s, Variant::Min) + fmt_centi_pad5(c.min as int) + " "@ + slot(
            t,
            s,
            Variant::Max,
        ) + fmt_centi_pad5(c.max as int),
        "\n"@,
    );
}

/// One measuring-screen row carries no marker.
proof fn lemma_meas_row_no_marker(label: Seq<char>, v: int)
    requires
        forall|i: int| 0 <= i < label.len() ==> label[i] != '>',
    ensures
        marker_count(meas_row(label, v)) == 0,
{
    reveal_strlit("\n");
    lemma_marker_count_zero(label);
    lemma_fmt_no_marker(v);
    lemma_marker_count_zero("\n"@);
    lemma_marker_count_add(label, fmt_centi(v));
    lemma_marker_count_add(label + fmt_centi(v), "\n"@);
}

/// The rendered text carries the `>` edit marker exactly once while
/// configuring — one of the six (sensor, bound) cells is marked,
/// unambiguously identifying the editing focus — and never while
/// measuring.
pub proof fn lemma_marker_unique(s: State)
    ensures
        s.task == Task::Measuring ==> marker_count(render_spec(s)) == 0,
        s.task != Task::Measuring ==> marker_count(render_spec(s)) == 1,
{
    reveal_strlit("MEASURING\n\n");
    reveal_strlit("         Value\n");
    reveal_strlit("CONFIGURING\n\n");
    reveal_strlit("          ");
    reveal_strlit("Min    ");
    reveal_strlit("Max\n");
    reveal_strlit("Temp     ");
    reveal_strlit("Light    ");
    reveal_strlit("Humidity ");
    match s.task {
        Task::Measuring => {
            lemma_marker_count_zero("MEASURING\n\n"@);
            lemma_marker_count_zero("         Value\n"@);
            lemma_meas_row_no_marker("Temp     "@, s.temp as int);
            lemma_meas_row_no_marker("Light    "@, s.light as int);
            lemma_meas_row_no_marker("Humidity "@, s.humidity as int);
            lemma_marker_count_add("MEASURING\n\n"@, "         Value\n"@);
            lemma_marker_count_add(
                "MEASURING\n\n"@ + "         Value\n"@,
                meas_row("Temp     "@, s.temp as int),
            );
            lemma_marker_count_add(
                "MEASURING\n\n"@ + "         Value\n"@ + meas_row("Temp     "@, s.temp as int),
                meas_row("Light    "@, s.light as int),
            );
            lemma_marker_count_add(
                "MEASURING\n\n"@ + "         Value\n"@ + meas_row("Temp     "@, s.temp as int)
                    + meas_row("Light    "@, s.light as int),
                meas_row("Humidity "@, s.humidity as int),
            );
        },
        Task::Configuring(es, ev) => {
            let hdr = "CONFIGURING\n\n"@ + "          "@ + hdr_slot(s.task, Variant::Min)
                + "Min    "@ + hdr_slot(s.task, Variant::Max) + "Max\n"@;
            lemma_marker_count_zero("CONFIGURING\n\n"@);
            lemma_marker_count_zero("          "@);
            lemma_marker_count_zero("Min    "@);
            lemma_marker_count_zero("Max\n"@);
            lemma_slot_marker(s.task, Sensor::Temperature, Variant::Min);
            lemma_slot_marker(s.task, Sensor::Temperature, Variant::Max);
            lemma_slot_marker(s.task, Sensor::Light, Variant::Min);
            lemma_slot_marker(s.task, Sensor::Light, Variant::Max);
            lemma_slot_marker(s.task, Sensor::Humidity, Variant::Min);
            lemma_slot_marker(s.task, Sensor::Humidity, Variant::Max);
            lemma_marker_count_zero(hdr_slot(s.task, Variant::Min));
            lemma_marker_count_zero(hdr_slot(s.task, Variant::Max));
            lemma_marker_count_add("CONFIGURING\n\n"@, "          "@);
            lemma_marker_count_add(
                "CONFIGURING\n\n"@ + "          "@,
                hdr_slot(s.task, Variant::Min),
            );
            lemma_marker_count_add(
                "CONFIGURING\n\n"@ + "          "@ + hdr_slot(s.task, Variant::Min),
                "Min    "@,
            );
            lemma_marker_count_add(
                "CONFIGURING\n\n"@ + "          "@ + hdr_slot(s.task, Variant::Min) + "Min    "@,
                hdr_slot(s.task, Variant::Max),
            );
            lemma_marker_count_add(
                "CONFIGURING\n\n"@ + "          "@ + hdr_slot(s.task, Variant::Min) + "Min    "@
                    + hdr_slot(s.task, Variant::Max),
                "Max\n"@,
            );
            lemma_cfg_row_marker("Temp     "@, s.task, Sensor::Temperature, s.temp_cfg);
            lemma_cfg_row_marker("Light    "@, s.task, Sensor::Light, s.light_cfg);
            lemma_cfg_row_marker("Humidity "@, s.task, Sensor::Humidity, s.humidity_cfg);
            lemma_marker_count_add(
                hdr,
                cfg_row("Temp     "@, s.task, Sensor::Temperature, s.temp_cfg),
            );
            lemma_marker_count_add(
                hdr + cfg_row("Temp     "@, s.task, Sensor::Temperature, s.temp_cfg),
                cfg_row("Light    "@, s.task, Sensor::Light, s.light_cfg),
            );
            lemma_marker_count_add(
                hdr + cfg_row("Temp     "@, s.task, Sensor::Temperature, s.temp_cfg) + cfg_row(
                    "Light    "@,
                    s.task,
                    Sensor::Light,
                    s.light_cfg,
                ),
                cfg_row("Humidity "@, s.task, Sensor::Humidity, s.humidity_cfg),
            );
        },
    }
}

} // verus!
