//! The force-component selection that analysis maps are built from: which
//! component, or mean, of a logged force reading gives a map its
//! magnitude.

use vstd::prelude::*;
use crate::fixed::{Fix, div_tz};
use crate::geom::Wrench;

verus! {

/// Which part of a force reading an analysis map draws.
#[derive(Clone, Copy, PartialEq, Eq, Structural, Debug)]
pub enum ForceSel {
    /// The mean of the three force components.
    ForceAvg,
    /// The mean of the three moment components.
    MomAvg,
    /// The first force component.
    X,
    /// The second force component.
    Y,
    /// The third force component.
    Z,
    /// The first moment component.
    Xmom,
    /// The second moment component.
    Ymom,
    /// The third moment component.
    Zmom,
}

/// The magnitude of a value.
pub open spec fn abs_val(x: int) -> int {
    if x >= 0 {
        x
    } else {
        -x
    }
}

/// The magnitude a selector draws from one reading: the absolute value of
/// the chosen component, or of the mean of the three forces or moments,
/// the mean truncated toward zero.
pub open spec fn selected_force(w: Wrench, sel: ForceSel) -> int {
    match sel {
        ForceSel::ForceAvg => abs_val(div_tz(w.fx@ + w.fy@ + w.fz@, 3)),
        ForceSel::MomAvg => abs_val(div_tz(w.mx@ + w.my@ + w.mz@, 3)),
        ForceSel::X => abs_val(w.fx@),
        ForceSel::Y => abs_val(w.fy@),
        ForceSel::Z => abs_val(w.fz@),
        ForceSel::Xmom => abs_val(w.mx@),
        ForceSel::Ymom => abs_val(w.my@),
        ForceSel::Zmom => abs_val(w.mz@),
    }
}

/// The mean of three in-range values, truncated toward zero.
fn mean3(a: Fix, b: Fix, c: Fix) -> (r: Fix)
    requires
        a.valid(),
        b.valid(),
        c.valid(),
    ensures
        r@ == div_tz(a@ + b@ + c@, 3),
{
    let s: i64 = a.micros + b.micros + c.micros;
    if s >= 0 {
        Fix { micros: s / 3 }
    } else {
        Fix { micros: -((-s) / 3) }
    }
}

/// Draws a selector's magnitude from one force reading.
pub fn select_force(w: &Wrench, sel: ForceSel) -> (r: Fix)
    requires
        w.valid(),
    ensures
        r@ == selected_force(*w, sel),
        r.valid(),
{
    let v: Fix = match sel {
        ForceSel::ForceAvg => mean3(w.fx, w.fy, w.fz),
        ForceSel::MomAvg => mean3(w.mx, w.my, w.mz),
        ForceSel::X => w.fx,
        ForceSel::Y => w.fy,
        ForceSel::Z => w.fz,
        ForceSel::Xmom => w.mx,
        ForceSel::Ymom => w.my,
        ForceSel::Zmom => w.mz,
    };
    if v.micros >= 0 {
        v
    } else {
        Fix { micros: -v.micros }
    }
}

} // verus!
