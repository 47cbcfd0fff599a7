//! The control registry.
//!
//! During `setup` the script declares its interactive parameters through the
//! host functions backed by `register_slider`, `register_checkbox` and
//! `register_colorpicker`; the declarations land here, in order.  Between
//! re-runs of `setup` only the `value` fields change: the UI writes a value
//! back through `set_value`, and before every `draw` the orchestrator reads
//! the whole list back as script-global bindings.

use vstd::prelude::*;
use crate::color::{Rgb, picker_default};
use crate::num::{SCALE, in_range, clamped, clamp_scalar, tdiv, lemma_tdiv_bound,
    lemma_mul_bounds};

verus! {

/// Default slider step where the script declared none: 0.1 in micro-units.
pub const STEP_DEFAULT: i64 = 100_000;

/// A slider: a named numeric parameter with bounds and step, all in
/// micro-units.
pub struct SliderParam {
    pub name: String,
    pub min: i64,
    pub max: i64,
    pub step: i64,
    pub value: i64,
}

/// A checkbox: a named boolean parameter with a display label.
pub struct CheckboxParam {
    pub name: String,
    pub label: String,
    pub value: bool,
}

/// A color picker: a named RGB parameter.
pub struct ColorPickerParam {
    pub name: String,
    pub value: Rgb,
}

/// A declared control.
pub enum Control {
    Slider(SliderParam),
    Checkbox(CheckboxParam),
    ColorPicker(ColorPickerParam),
}

/// A control's current value, as it is pushed into the script's globals.
#[derive(Clone, Copy, Debug, PartialEq, Eq, Structural)]
pub enum ControlValue {
    Num(i64),
    Flag(bool),
    ColorVal(Rgb),
}

/// The declared name of a control: the script-global variable it feeds.
pub open spec fn control_name(c: Control) -> Seq<char> {
    match c {
        Control::Slider(s) => s.name@,
        Control::Checkbox(cb) => cb.name@,
        Control::ColorPicker(p) => p.name@,
    }
}

/// The current value of a control.
pub open spec fn control_value(c: Control) -> ControlValue {
    match c {
        Control::Slider(s) => ControlValue::Num(s.value),
        Control::Checkbox(cb) => ControlValue::Flag(cb.value),
        Control::ColorPicker(p) => ControlValue::ColorVal(p.value),
    }
}

/// Whether a value has the shape this control stores.
pub open spec fn kind_matches(c: Control, v: ControlValue) -> bool {
    match c {
        Control::Slider(_) => v is Num,
        Control::Checkbox(_) => v is Flag,
        Control::ColorPicker(_) => v is ColorVal,
    }
}

/// The control with only its `value` field replaced (for a value of the
/// matching kind; otherwise the control is unchanged).
pub open spec fn with_value(c: Control, v: ControlValue) -> Control {
    match c {
        Control::Slider(s) => match v {
            ControlValue::Num(x) => Control::Slider(
                SliderParam { name: s.name, min: s.min, max: s.max, step: s.step, value: x },
            ),
            _ => c,
        },
        Control::Checkbox(cb) => match v {
            ControlValue::Flag(x) => Control::Checkbox(
                CheckboxParam { name: cb.name, label: cb.label, value: x },
            ),
            _ => c,
        },
        Control::ColorPicker(p) => match v {
            ControlValue::ColorVal(x) => Control::ColorPicker(
                ColorPickerParam { name: p.name, value: x },
            ),
            _ => c,
        },
    }
}

/// Index `i` holds the first control named `name` that stores values of the
/// same kind as `v`.
pub open spec fn is_first_match(
    items: Seq<Control>,
    name: Seq<char>,
    v: ControlValue,
    i: int,
) -> bool {
    &&& 0 <= i < items.len()
    &&& control_name(items[i]) == name
    &&& kind_matches(items[i], v)
    &&& forall|j: int| 0 <= j < i
        ==> !(control_name(items[j]) == name && kind_matches(items[j], v))
}

/// At most one index can be the first match.
pub proof fn lemma_first_match_unique(
    items: Seq<Control>,
    name: Seq<char>,
    v: ControlValue,
    a: int,
    b: int,
)
    requires
        is_first_match(items, name, v, a),
        is_first_match(items, name, v, b),
    ensures
        a == b,
{
}

/// The ordered set of declared controls with their current values.
pub struct Registry {
    pub items: Vec<Control>,
}

impl Registry {
    /// An empty registry.
    pub fn new() -> (r: Registry)
        ensures
            r.items@.len() == 0,
    {
        Registry { items: Vec::new() }
    }

    /// Declare a slider.  Missing fields fall back to `min = 0`, `max = 1`
    /// (in plot units), `step = 0.1` and `default = 0`; each scalar is
    /// clamped into the representable range.  The declared default is stored
    /// as the initial value even where it lies outside `[min, max]`,
    /// honoring the script's declared intent.
    pub fn register_slider(
        &mut self,
        name: String,
        min_v: Option<i64>,
        max_v: Option<i64>,
        step_v: Option<i64>,
        default_v: Option<i64>,
    )
        ensures
            final(self).items@.len() == old(self).items@.len() + 1,
            forall|i: int| 0 <= i < old(self).items@.len()
                ==> final(self).items@[i] == old(self).items@[i],
            ({
                let c = final(self).items@.last();
                &&& c matches Control::Slider(s)
                &&& s.name@ == name@
                &&& s.min == clamped(min_v.unwrap_or(0) as int)
                &&& s.max == clamped(max_v.unwrap_or(SCALE) as int)
                &&& s.step == clamped(step_v.unwrap_or(STEP_DEFAULT) as int)
                &&& s.value == clamped(default_v.unwrap_or(0) as int)
            }),
    {
        let s = SliderParam {
            name,
            min: clamp_scalar(min_v.unwrap_or(0)),
            max: clamp_scalar(max_v.unwrap_or(SCALE)),
            step: clamp_scalar(step_v.unwrap_or(STEP_DEFAULT)),
            value: clamp_scalar(default_v.unwrap_or(0)),
        };
        self.items.push(Control::Slider(s));
    }

    /// Declare a checkbox.  A missing default means `true`.
    pub fn register_checkbox(&mut self, name: String, label: String, default_v: Option<bool>)
        ensures
            final(self).items@.len() == old(self).items@.len() + 1,
            forall|i: int| 0 <= i < old(self).items@.len()
                ==> final(self).items@[i] == old(self).items@[i],
            ({
                let c = final(self).items@.last();
                &&& c matches Control::Checkbox(cb)
                &&& cb.name@ == name@
                &&& cb.label@ == label@
                &&& cb.value == default_v.unwrap_or(true)
            }),
    {
        let cb = CheckboxParam { name, label, value: default_v.unwrap_or(true) };
        self.items.push(Control::Checkbox(cb));
    }

    /// Declare a color picker.  A missing or malformed default means white.
    pub fn register_colorpicker(&mut self, name: String, default_v: Option<Rgb>)
        ensures
            final(self).items@.len() == old(self).items@.len() + 1,
            forall|i: int| 0 <= i < old(self).items@.len()
                ==> final(self).items@[i] == old(self).items@[i],
            ({
                let c = final(self).items@.last();
                &&& c matches Control::ColorPicker(p)
                &&& p.name@ == name@
                &&& p.value == (match default_v {
                    Option::Some(col) => col,
                    Option::None => picker_default(),
                })
            }),
    {
        let p = ColorPickerParam {
            name,
            value: default_v.unwrap_or(Rgb { r: 255, g: 255, b: 255 }),
        };
        self.items.push(Control::ColorPicker(p));
    }

    /// How many controls are declared.
    pub fn len(&self) -> (n: usize)
        ensures
            n == self.items@.len(),
    {
        self.items.len()
    }

    /// The current value of every control under its declared name, in
    /// declaration order: the bindings the orchestrator pushes into the
    /// script's global scope before each `draw`.
    pub fn bindings(&self) -> (out: Vec<(String, ControlValue)>)
        ensures
            out@.len() == self.items@.len(),
            forall|i: int| 0 <= i < self.items@.len() ==> {
                &&& (#[trigger] out@[i]).0@ == control_name(self.items@[i])
                &&& out@[i].1 == control_value(self.items@[i])
            },
    {
        let mut out: Vec<(String, ControlValue)> = Vec::new();
        let n = self.items.len();
        let mut i: usize = 0;
        while i < n
            invariant
                n == self.items@.len(),
                i <= n,
                out@.len() == i,
                forall|j: int| 0 <= j < i as int ==> {
                    &&& (#[trigger] out@[j]).0@ == control_name(self.items@[j])
                    &&& out@[j].1 == control_value(self.items@[j])
                },
            decreases n - i,
        {
            match &self.items[i] {
                Control::Slider(s) => out.push((s.name.clone(), ControlValue::Num(s.value))),
                Control::Checkbox(cb) => out.push((cb.name.clone(), ControlValue::Flag(cb.value))),
                Control::ColorPicker(p) => out.push(
                    (p.name.clone(), ControlValue::ColorVal(p.value)),
                ),
            }
            i += 1;
        }
        out
    }

    /// Write a UI-mutated value back into the first control with this name
    /// that stores values of this kind; only that control's `value` field
    /// changes.  Returns whether any control matched.
    pub fn set_value(&mut self, name: &String, v: ControlValue) -> (changed: bool)
        ensures
            changed == exists|i: int| is_first_match(old(self).items@, name@, v, i),
            !changed ==> final(self).items@ == old(self).items@,
            changed ==> ({
                let i = choose|i: int| is_first_match(old(self).items@, name@, v, i);
                &&& final(self).items@.len() == old(self).items@.len()
                &&& forall|j: int| 0 <= j < old(self).items@.len() && j != i
                    ==> final(self).items@[j] == old(self).items@[j]
                &&& final(self).items@[i] == with_value(old(self).items@[i], v)
            }),
    {
        let n = self.items.len();
        let mut i: usize = 0;
        while i < n
            invariant
                n == self.items@.len(),
                i <= n,
                self.items@ == old(self).items@,
                forall|j: int| 0 <= j < i as int
                    ==> !(control_name(self.items@[j]) == name@
                        && kind_matches(self.items@[j], v)),
            decreases n - i,
        {
            let replacement: Option<Control> = match (&self.items[i], v) {
                (Control::Slider(s), ControlValue::Num(x)) => if s.name == *name {
                    Some(
                        Control::Slider(
                            SliderParam {
                                name: s.name.clone(),
                                min: s.min,
                                max: s.max,
                                step: s.step,
                                value: x,
                            },
                        ),
                    )
                } else {
                    None
                },
                (Control::Checkbox(cb), ControlValue::Flag(x)) => if cb.name == *name {
                    Some(
                        Control::Checkbox(
                            CheckboxParam {
                                name: cb.name.clone(),
                                label: cb.label.clone(),
                                value: x,
                            },
                        ),
                    )
                } else {
                    None
                },
                (Control::ColorPicker(p), ControlValue::ColorVal(x)) => if p.name == *name {
                    Some(Control::ColorPicker(ColorPickerParam { name: p.name.clone(), value: x }))
                } else {
                    None
                },
                _ => None,
            };
            match replacement {
                Some(u) => {
                    proof {
                        assert(is_first_match(old(self).items@, name@, v, i as int));
                        assert(u == with_value(old(self).items@[i as int], v));
                        lemma_first_match_unique(
                            old(self).items@,
                            name@,
                            v,
                            i as int,
                            choose|k: int| is_first_match(old(self).items@, name@, v, k),
                        );
                    }
                    self.items.set(i, u);
                    return true;
                },
                None => {},
            }
            i += 1;
        }
        false
    }
}

/// Rounding division: the nearest multiple, ties away from zero.
pub open spec fn round_div(d: int, s: int) -> int
    recommends
        s > 0,
{
    if d >= 0 {
        tdiv(2 * d + s, 2 * s)
    } else {
        tdiv(2 * d - s, 2 * s)
    }
}

/// `v` forced into `[lo, hi]`.
pub open spec fn clamp_to(v: int, lo: int, hi: int) -> int {
    if v < lo {
        lo
    } else if v > hi {
        hi
    } else {
        v
    }
}

/// The value a slider widget actually settles on for a raw requested value:
/// quantized to `min + n * step` (nearest such point, where the step is
/// positive), then forced into `[min, max]`.
pub open spec fn quantized(min_v: int, max_v: int, step: int, raw: int) -> int {
    if step > 0 {
        clamp_to(min_v + round_div(raw - min_v, step) * step, min_v, max_v)
    } else {
        clamp_to(raw, min_v, max_v)
    }
}

/// Quantize a raw slider value against the slider's declared bounds and
/// step.  The result lies in `[min, max]` whenever that interval is
/// non-empty.
pub fn quantize_value(min_v: i64, max_v: i64, step: i64, raw: i64) -> (q: i64)
    requires
        in_range(min_v as int),
        in_range(max_v as int),
        in_range(step as int),
        in_range(raw as int),
    ensures
        q == quantized(min_v as int, max_v as int, step as int, raw as int),
        min_v <= max_v ==> min_v <= q <= max_v,
{
    if step <= 0 {
        if raw < min_v {
            return min_v;
        }
        if raw > max_v {
            return max_v;
        }
        return raw;
    }
    let d: i64 = raw - min_v;
    let num: i64 = if d >= 0 {
        2 * d + step
    } else {
        2 * d - step
    };
    let den: i64 = 2 * step;
    let n: i64 = crate::num::div_trunc(num, den);
    proof {
        assert(-(den as int * 3_000_000_000_000) <= num as int
            <= den as int * 3_000_000_000_000) by (nonlinear_arith)
            requires
                den == 2 * step,
                1 <= step <= 1_000_000_000_000,
                -5_000_000_000_000 <= num <= 5_000_000_000_000,
        ;
        lemma_tdiv_bound(num as int, den as int, 3_000_000_000_000);
        lemma_mul_bounds(n as int, step as int, 3_000_000_000_000, 1_000_000_000_000);
    }
    let q_wide: i128 = min_v as i128 + (n as i128) * (step as i128);
    let clamped_wide: i128 = if q_wide < min_v as i128 {
        min_v as i128
    } else if q_wide > max_v as i128 {
        max_v as i128
    } else {
        q_wide
    };
    clamped_wide as i64
}

} // verus!
