//! Radiation sources, decay accounting and severity banding.
//!
//! A source is a point with a scalar magnitude, derived from a selected
//! material's fixed yield constant. For display, a magnitude falls into
//! one of six contiguous severity bands, classified by ordered
//! half-open intervals over five ascending thresholds. The magnitude
//! itself is a floating-point value held outside the library; the
//! classification takes the outcome of comparing it against each
//! threshold in order, and the banding logic here is verified over
//! those comparison flags.

use vstd::prelude::*;

verus! {

/// A radioactive material selectable as a source. Each carries a fixed
/// yield constant: the magnitude one unit of its mass contributes.
#[derive(Clone, Copy, Debug, PartialEq, Eq, Structural)]
pub enum RadioactiveMaterial {
    Nothing,
    NuclearWaste,
    Plutonium,
    Polonium,
}

impl Default for RadioactiveMaterial {
    fn default() -> (r: Self)
        ensures
            r == RadioactiveMaterial::Nothing,
    {
        RadioactiveMaterial::Nothing
    }
}

/// The display name of a material.
pub open spec fn spec_material_name(m: RadioactiveMaterial) -> Seq<char> {
    match m {
        RadioactiveMaterial::Nothing => "None"@,
        RadioactiveMaterial::NuclearWaste => "Nuclear Waste"@,
        RadioactiveMaterial::Plutonium => "Plutonium"@,
        RadioactiveMaterial::Polonium => "Polonium"@,
    }
}

/// The yield constant of a material, in thousandths of a severity unit
/// per unit of mass.
pub open spec fn spec_yield_milli(m: RadioactiveMaterial) -> u64 {
    match m {
        RadioactiveMaterial::Nothing => 0,
        RadioactiveMaterial::NuclearWaste => 10,
        RadioactiveMaterial::Plutonium => 20,
        RadioactiveMaterial::Polonium => 50,
    }
}

impl RadioactiveMaterial {
    /// The display name of this material.
    pub fn name(&self) -> (r: &'static str)
        ensures
            r@ == spec_material_name(*self),
    {
        match self {
            RadioactiveMaterial::Nothing => "None",
            RadioactiveMaterial::NuclearWaste => "Nuclear Waste",
            RadioactiveMaterial::Plutonium => "Plutonium",
            RadioactiveMaterial::Polonium => "Polonium",
        }
    }

    /// The yield constant of this material, in thousandths of a
    /// severity unit per unit of mass. The raw constants are
    /// fractional, so the library holds them scaled by one thousand;
    /// the caller divides again when deriving a source magnitude.
    pub fn yield_milli(&self) -> (y: u64)
        ensures
            y == spec_yield_milli(*self),
    {
        match self {
            RadioactiveMaterial::Nothing => 0,
            RadioactiveMaterial::NuclearWaste => 10,
            RadioactiveMaterial::Plutonium => 20,
            RadioactiveMaterial::Polonium => 50,
        }
    }
}

/// How many game ticks one step of the decay estimate stands for.
pub const TICKS_PER_DECAY_STEP: u64 = 20;

/// Tick accounting for the decay estimate. The estimate repeatedly
/// multiplies the magnitude by the decay rate until it falls to the
/// floor; that float loop runs outside the library and hands over only
/// its step count, which this renders in game ticks, twenty per step.
/// The result is always a multiple of twenty, and positive as soon as
/// one step was needed.
pub fn decay_ticks(steps: u64) -> (t: u64)
    requires
        steps <= u64::MAX / 20,
    ensures
        t == steps * TICKS_PER_DECAY_STEP,
        t % 20 == 0,
        steps > 0 ==> t > 0,
{
    steps * TICKS_PER_DECAY_STEP
}

/// The row-major index layout of the preview grid: one inner vector
/// per row index up to and including `rows`, each holding one
/// (row, column) pair per column index up to and including `columns`.
/// The grid is rebuilt from this layout on every parameter change; the
/// float position and exposure of each cell are computed outside the
/// library, one per index pair, so the layout fixes how many cells the
/// grid has and in what order they come.
pub fn grid_indices(rows: usize, columns: usize) -> (g: Vec<Vec<(usize, usize)>>)
    requires
        rows < usize::MAX,
        columns < usize::MAX,
    ensures
        g@.len() == rows + 1,
        forall|x: int| 0 <= x <= rows ==> #[trigger] g@[x]@.len() == columns + 1,
        forall|x: int, y: int|
            0 <= x <= rows && 0 <= y <= columns ==> #[trigger] g@[x]@[y] == (
                x as usize,
                y as usize,
            ),
{
    let mut g: Vec<Vec<(usize, usize)>> = Vec::new();
    let mut x: usize = 0;
    while x <= rows
        invariant
            rows < usize::MAX,
            columns < usize::MAX,
            x <= rows + 1,
            g@.len() == x,
            forall|i: int| 0 <= i < x ==> #[trigger] g@[i]@.len() == columns + 1,
            forall|i: int, j: int|
                0 <= i < x && 0 <= j <= columns ==> #[trigger] g@[i]@[j] == (
                    i as usize,
                    j as usize,
                ),
        decreases rows + 1 - x,
    {
        let mut row: Vec<(usize, usize)> = Vec::new();
        let mut y: usize = 0;
        while y <= columns
            invariant
                columns < usize::MAX,
                y <= columns + 1,
                row@.len() == y,
                forall|j: int| 0 <= j < y ==> #[trigger] row@[j] == (x, j as usize),
            decreases columns + 1 - y,
        {
            row.push((x, y));
            y = y + 1;
        }
        g.push(row);
        x = x + 1;
    }
    g
}

/// One of the six contiguous severity bands an exposure magnitude
/// falls into, ascending. Each band is a half-open interval between
/// two of the five ascending thresholds: the baseline (a tenth of a
/// millionth of a unit, inclusive below), then one hundred-thousandth,
/// one thousandth, one tenth, and ten units (each inclusive above).
/// The display layer maps each band to a color.
#[derive(Clone, Copy, Debug, PartialEq, Eq, Structural)]
pub enum SeverityBand {
    Faint,
    Low,
    Moderate,
    High,
    Severe,
    Extreme,
}

/// How many band thresholds there are (one fewer than bands).
pub const SEVERITY_THRESHOLD_COUNT: usize = 5;

/// The position of a band in the ascending order of severities.
pub open spec fn band_level(b: SeverityBand) -> int {
    match b {
        SeverityBand::Faint => 0,
        SeverityBand::Low => 1,
        SeverityBand::Moderate => 2,
        SeverityBand::High => 3,
        SeverityBand::Severe => 4,
        SeverityBand::Extreme => 5,
    }
}

/// The band picked by matching the thresholds in ascending order:
/// `exceeds[i]` says whether the magnitude clears threshold `i`
/// (strictly above for the baseline threshold, at-or-above for the
/// rest); the first threshold not cleared ends the search.
pub open spec fn spec_severity_band(exceeds: Seq<bool>) -> SeverityBand
    recommends
        exceeds.len() == 5,
{
    if !exceeds[0] {
        SeverityBand::Faint
    } else if !exceeds[1] {
        SeverityBand::Low
    } else if !exceeds[2] {
        SeverityBand::Moderate
    } else if !exceeds[3] {
        SeverityBand::High
    } else if !exceeds[4] {
        SeverityBand::Severe
    } else {
        SeverityBand::Extreme
    }
}

/// Whether the magnitude described by `exceeds` lies inside band `k`:
/// it clears the threshold below the band (if any) and not the one
/// above it (if any).
pub open spec fn band_contains(exceeds: Seq<bool>, k: int) -> bool
    recommends
        exceeds.len() == 5,
        0 <= k <= 5,
{
    (k == 0 || exceeds[k - 1]) && (k == 5 || !exceeds[k])
}

/// Flags that come from comparing one magnitude against ascending
/// thresholds: clearing a higher threshold clears every lower one.
pub open spec fn downward_closed(s: Seq<bool>) -> bool {
    forall|i: int, j: int| 0 <= i <= j < s.len() && s[j] ==> s[i]
}

/// Classifies a magnitude into its severity band. `exceeds[i]` holds
/// the outcome of comparing the magnitude against threshold `i`,
/// ascending (strictly above for the baseline threshold, at-or-above
/// for the rest).
pub fn severity_band(exceeds: &Vec<bool>) -> (b: SeverityBand)
    requires
        exceeds@.len() == SEVERITY_THRESHOLD_COUNT,
    ensures
        b == spec_severity_band(exceeds@),
{
    if !exceeds[0] {
        SeverityBand::Faint
    } else if !exceeds[1] {
        SeverityBand::Low
    } else if !exceeds[2] {
        SeverityBand::Moderate
    } else if !exceeds[3] {
        SeverityBand::High
    } else if !exceeds[4] {
        SeverityBand::Severe
    } else {
        SeverityBand::Extreme
    }
}

/// The severity bands are exhaustive and non-overlapping: for flags
/// that come from comparing one magnitude against the five ascending
/// thresholds, exactly one band contains the magnitude, and it is the
/// band the ascending first-match classification selects.
pub proof fn lemma_severity_bands_partition(exceeds: Seq<bool>)
    requires
        exceeds.len() == 5,
        downward_closed(exceeds),
    ensures
        forall|k: int|
            0 <= k <= 5 ==> (band_contains(exceeds, k) <==> k == band_level(
                spec_severity_band(exceeds),
            )),
{
    assert forall|k: int|
        0 <= k <= 5 implies (band_contains(exceeds, k) <==> k == band_level(
        spec_severity_band(exceeds),
    )) by {
        let chosen = band_level(spec_severity_band(exceeds));
        assert(band_contains(exceeds, chosen));
        if band_contains(exceeds, k) && k != chosen {
            if k < chosen {
                assert(exceeds[chosen - 1]);
                assert(exceeds[k]);
            } else {
                assert(exceeds[k - 1]);
                assert(!exceeds[chosen]);
            }
        }
    }
}

} // verus!
