use vstd::prelude::*;
use crate::config::{GlobalConfig, INDENT_WIDTH};
use crate::text::{repeat_char, spaces, spaces_spec};

verus! {

/// Colour tier of the filled part of a bar, keyed on the percentage used.
#[derive(Clone, Copy, Debug, PartialEq, Eq, Structural)]
pub enum Tier {
    Green,
    Yellow,
    Red,
}

/// Tier of `used / total` percent: up to 75 green, up to 95 yellow, above red.
/// An empty resource (`total == 0`) counts as unused.
pub open spec fn tier_spec(used: int, total: int) -> Tier {
    if total <= 0 || 100 * used <= 75 * total {
        Tier::Green
    } else if 100 * used <= 95 * total {
        Tier::Yellow
    } else {
        Tier::Red
    }
}

/// `round(width * used / total)`, halves rounded up; zero for an empty resource.
pub open spec fn filled_spec(used: int, total: int, width: int) -> int {
    if total <= 0 {
        0
    } else {
        (2 * width * used + total) / (2 * total)
    }
}

/// Colour tier for `used` out of `total`.
pub fn tier_of(used: u64, total: u64) -> (r: Tier)
    ensures
        r == tier_spec(used as int, total as int),
{
    let u = used as u128;
    let t = total as u128;
    if total == 0 || 100 * u <= 75 * t {
        Tier::Green
    } else if 100 * u <= 95 * t {
        Tier::Yellow
    } else {
        Tier::Red
    }
}

proof fn lemma_round_div(p: int, t: int, q: int, r: int)
    requires
        t > 0,
        p >= 0,
        q == p / t,
        r == p % t,
    ensures
        (2 * p + t) / (2 * t) == q + if 2 * r >= t { 1int } else { 0int },
{
    vstd::arithmetic::div_mod::lemma_fundamental_div_mod(p, t);
    let k: int = if 2 * r >= t { 1 } else { 0 };
    let rest = 2 * r + t - 2 * t * k;
    assert(0 <= rest < 2 * t);
    assert(2 * p + t == 2 * t * q + 2 * r + t) by (nonlinear_arith)
        requires p == t * q + r;
    assert(2 * p + t == (2 * t) * (q + k) + rest) by (nonlinear_arith)
        requires 2 * p + t == 2 * t * q + 2 * r + t, rest == 2 * r + t - 2 * t * k;
    vstd::arithmetic::div_mod::lemma_fundamental_div_mod_converse(2 * p + t, 2 * t, q + k, rest);
}

/// Number of filled cells of a bar of `width` cells for `used` out of `total`.
pub fn filled_cells(used: u64, total: u64, width: usize) -> (r: usize)
    requires
        used <= total,
    ensures
        r as int == filled_spec(used as int, total as int, width as int),
        r <= width,
{
    if total == 0 {
        return 0;
    }
    let w = width as u128;
    let u = used as u128;
    let t = total as u128;
    assert(w * u <= w * t) by (nonlinear_arith)
        requires u <= t;
    assert(w * t <= 0xffff_ffff_ffff_ffffu128 * 0xffff_ffff_ffff_ffffu128) by (nonlinear_arith)
        requires w <= 0xffff_ffff_ffff_ffffu128, t <= 0xffff_ffff_ffff_ffffu128;
    let p = w * u;
    let q = p / t;
    let r = p % t;
    proof {
        lemma_round_div(p as int, t as int, q as int, r as int);
        assert(2 * (p as int) + t == 2 * (width as int) * (used as int) + total) by (nonlinear_arith)
            requires p as int == (w as int) * (u as int), w == width, u == used, t == total;
        vstd::arithmetic::div_mod::lemma_fundamental_div_mod(p as int, t as int);
        assert(q <= w) by (nonlinear_arith)
            requires p == t * q + r, r >= 0, p <= w * t, t > 0;
        if q == w {
            assert(r == 0) by (nonlinear_arith)
                requires p == t * q + r, q == w, p <= w * t, r >= 0;
        }
    }
    if 2 * r >= t {
        (q + 1) as usize
    } else {
        q as usize
    }
}

/// One progress bar: `filled` cells in the tier's colour, then `empty` cells.
#[derive(Clone, Copy, Debug, PartialEq, Eq, Structural)]
pub struct Bar {
    pub filled: usize,
    pub empty: usize,
    pub tier: Tier,
}

impl Bar {
    /// The bar of `width` cells that shows `used` out of `total`.
    pub open spec fn spec_of(used: int, total: int, width: int) -> Bar {
        Bar {
            filled: filled_spec(used, total, width) as usize,
            empty: (width - filled_spec(used, total, width)) as usize,
            tier: tier_spec(used, total),
        }
    }

    /// Total number of cells.
    pub open spec fn width(&self) -> int {
        self.filled + self.empty
    }

    /// Builds the bar of `width` cells for `used` out of `total`.
    pub fn new(used: u64, total: u64, width: usize) -> (r: Bar)
        requires
            used <= total,
        ensures
            r == Bar::spec_of(used as int, total as int, width as int),
            r.filled + r.empty == width,
            r.filled <= width,
    {
        let filled = filled_cells(used, total, width);
        Bar { filled, empty: width - filled, tier: tier_of(used, total) }
    }
}

/// For a used share between nothing and everything, a bar of `width` cells
/// splits into filled and empty cells that add up to `width`, with the filled
/// part within `[0, width]`.
pub proof fn lemma_bar_split(used: int, total: int, width: int)
    requires
        0 <= used <= total,
        width >= 0,
    ensures
        0 <= filled_spec(used, total, width) <= width,
        filled_spec(used, total, width) + (width - filled_spec(used, total, width)) == width,
        width <= usize::MAX ==> Bar::spec_of(used, total, width).width() == width,
{
    if total > 0 {
        let n = 2 * width * used + total;
        let d = 2 * total;
        assert(0 <= n) by (nonlinear_arith)
            requires width >= 0, used >= 0, total > 0, n == 2 * width * used + total;
        assert(n < d * (width + 1)) by (nonlinear_arith)
            requires used <= total, width >= 0, total > 0, n == 2 * width * used + total, d == 2 * total;
        vstd::arithmetic::div_mod::lemma_div_pos_is_pos(n, d);
        vstd::arithmetic::div_mod::lemma_div_by_multiple_is_strongly_ordered(n, d * (width + 1), width + 1, d);
        assert(d * (width + 1) / d == width + 1) by {
            vstd::arithmetic::div_mod::lemma_div_multiples_vanish(width + 1, d);
        }
    }
}

/// The characters of a drawn bar, in order; colours go between the parts.
#[derive(Clone, Debug)]
pub struct BarText {
    /// Indentation and the configured prefix.
    pub lead: String,
    /// One full character per filled cell.
    pub full: String,
    /// One empty character per empty cell.
    pub empty: String,
    /// The configured suffix.
    pub suffix: String,
}

/// The characters that draw `bar` with the configured decoration.
pub fn bar_text(global_config: &GlobalConfig, bar: &Bar) -> (r: BarText)
    ensures
        r.lead@ == spaces_spec(INDENT_WIDTH as nat) + global_config.progress_prefix@,
        r.full@ == Seq::new(bar.filled as nat, |i: int| global_config.progress_full_character),
        r.empty@ == Seq::new(bar.empty as nat, |i: int| global_config.progress_empty_character),
        r.suffix@ == global_config.progress_suffix@,
{
    let mut lead = spaces(INDENT_WIDTH);
    lead.append(global_config.progress_prefix.as_str());
    BarText {
        lead,
        full: repeat_char(global_config.progress_full_character, bar.filled),
        empty: repeat_char(global_config.progress_empty_character, bar.empty),
        suffix: global_config.progress_suffix.clone(),
    }
}

} // verus!
