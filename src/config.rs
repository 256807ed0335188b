use vstd::prelude::*;

verus! {

/// Number of spaces used for indentation and as the column separator.
pub const INDENT_WIDTH: usize = 2;

/// Process-wide rendering settings, read once and shared read-only.
#[derive(Clone, Debug)]
pub struct GlobalConfig {
    pub progress_prefix: String,
    pub progress_suffix: String,
    pub progress_full_character: char,
    pub progress_empty_character: char,
    /// Default width of a progress line when no width is assigned.
    pub progress_width: usize,
}

impl GlobalConfig {
    /// Number of characters taken by the decoration around a bar.
    pub open spec fn decoration_len(&self) -> int {
        (self.progress_prefix@.len() + self.progress_suffix@.len()) as int
    }

    /// The decoration length, saturated to `usize::MAX`.
    pub fn decoration_width(&self) -> (r: usize)
        ensures
            r as int == if self.decoration_len() <= usize::MAX {
                self.decoration_len()
            } else {
                usize::MAX as int
            },
    {
        let p = self.progress_prefix.as_str().unicode_len();
        let s = self.progress_suffix.as_str().unicode_len();
        p.saturating_add(s)
    }
}

} // verus!

verus! {

/// `x` clamped to the range of `usize`.
pub open spec fn clamp_usize(x: int) -> int {
    if x > usize::MAX {
        usize::MAX as int
    } else {
        x
    }
}

/// `a - b`, or zero where `b > a`.
pub open spec fn sat_sub(a: int, b: int) -> int {
    if a >= b {
        a - b
    } else {
        0
    }
}

} // verus!
