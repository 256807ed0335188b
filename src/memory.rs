use vstd::prelude::*;
use crate::bar::Bar;
use crate::config::{sat_sub, GlobalConfig, INDENT_WIDTH};
use crate::line::Line;
use crate::text::{byte_size_text, format_bytes, spaces, spaces_spec};

verus! {

/// Where the swap usage is shown relative to the memory usage.
#[derive(Clone, Copy, Debug, PartialEq, Eq, Structural)]
pub enum SwapPosition {
    Beside,
    Below,
    /// Swap is not shown.
    Omitted,
}

/// Widget that shows memory and swap usage.
#[derive(Clone, Copy, Debug, PartialEq, Eq, Structural)]
pub struct Memory {
    pub swap_pos: SwapPosition,
}

/// Why the memory widget could not be drawn.
#[derive(Clone, Debug)]
pub enum MemoryError {
    /// The host reports no quantity under this name.
    MemoryNotFound { quantity: String },
    /// Memory figures cannot be read on this platform.
    UnsupportedPlatform,
    /// Reading the host's memory figures failed.
    IO { message: String },
}

impl MemoryError {
    /// The text shown for this error.
    pub open spec fn message_spec(&self) -> Seq<char> {
        match self {
            MemoryError::MemoryNotFound { quantity } => "Could not find memory quantity \""@ + quantity@ + "\""@,
            MemoryError::UnsupportedPlatform => "Getting memory information is not supported on the current platform"@,
            MemoryError::IO { message } => message@,
        }
    }

    /// An equal error.
    pub fn duplicate(&self) -> (r: MemoryError)
        ensures
            r == *self,
    {
        match self {
            MemoryError::MemoryNotFound { quantity } => MemoryError::MemoryNotFound { quantity: quantity.clone() },
            MemoryError::UnsupportedPlatform => MemoryError::UnsupportedPlatform,
            MemoryError::IO { message } => MemoryError::IO { message: message.clone() },
        }
    }

    /// The text shown for this error.
    pub fn message(&self) -> (r: String)
        ensures
            r@ == self.message_spec(),
    {
        match self {
            MemoryError::MemoryNotFound { quantity } => {
                let mut r = "Could not find memory quantity \"".to_string();
                r.append(quantity.as_str());
                r.append("\"");
                r
            },
            MemoryError::UnsupportedPlatform => "Getting memory information is not supported on the current platform".to_string(),
            MemoryError::IO { message } => message.clone(),
        }
    }
}

/// Usage of one memory pool.
#[derive(Clone, Debug)]
pub struct MemoryUsage {
    pub name: String,
    pub used: String,
    pub total: String,
    pub used_bytes: u64,
    pub total_bytes: u64,
}

/// Index of the last quantity of `info` called `name`, or -1.
pub open spec fn quantity_index(info: Seq<(String, u64)>, name: Seq<char>) -> int
    decreases info.len(),
{
    if info.len() == 0 {
        -1
    } else if info.last().0@ == name {
        info.len() - 1
    } else {
        quantity_index(info.drop_last(), name)
    }
}

/// Whether the host reports a quantity called `name`.
pub open spec fn has_quantity(info: Seq<(String, u64)>, name: Seq<char>) -> bool {
    quantity_index(info, name) >= 0
}

/// The value of the quantity called `name`.
pub open spec fn quantity(info: Seq<(String, u64)>, name: Seq<char>) -> u64 {
    info[quantity_index(info, name)].1
}

/// Looking up a pool with these quantity names fails with `e`.
pub open spec fn lookup_fails_with(
    info: Result<Vec<(String, u64)>, MemoryError>,
    free_name: Seq<char>,
    total_name: Seq<char>,
    e: MemoryError,
) -> bool {
    match info {
        Err(failure) => e == failure,
        Ok(v) => if !has_quantity(v@, total_name) {
            e matches MemoryError::MemoryNotFound { quantity } && quantity@ == total_name
        } else {
            !has_quantity(v@, free_name) && (e matches MemoryError::MemoryNotFound { quantity }
                && quantity@ == free_name)
        },
    }
}

/// Looking up a pool with these quantity names succeeds.
pub open spec fn lookup_succeeds(
    info: Result<Vec<(String, u64)>, MemoryError>,
    free_name: Seq<char>,
    total_name: Seq<char>,
) -> bool {
    match info {
        Err(_) => false,
        Ok(v) => has_quantity(v@, total_name) && has_quantity(v@, free_name),
    }
}

impl MemoryUsage {
    /// This is pool `name`, with free and total bytes read from `info`.
    pub open spec fn describes(&self, name: Seq<char>, info: Seq<(String, u64)>, free_name: Seq<char>, total_name: Seq<char>) -> bool {
        &&& self.name@ == name
        &&& self.total_bytes == quantity(info, total_name)
        &&& self.used_bytes as int == sat_sub(
            quantity(info, total_name) as int,
            quantity(info, free_name) as int,
        )
        &&& self.used@ == byte_size_text(self.used_bytes)
        &&& self.total@ == byte_size_text(self.total_bytes)
    }

    /// The caption of the pool's bar: `name: used / total`.
    pub open spec fn label(&self) -> Seq<char> {
        self.name@ + ": "@ + self.used@ + " / "@ + self.total@
    }

    /// The caption of the pool's bar.
    pub fn label_string(&self) -> (r: String)
        ensures
            r@ == self.label(),
    {
        let mut r = self.name.clone();
        r.append(": ");
        r.append(self.used.as_str());
        r.append(" / ");
        r.append(self.total.as_str());
        r
    }

    /// Reads the pool `name` from the host's memory figures: its total is
    /// the quantity `total_name`, its used part that total less `free_name`.
    pub fn get_by_name(
        name: String,
        meminfo: &Result<Vec<(String, u64)>, MemoryError>,
        free_name: &String,
        total_name: &String,
    ) -> (r: Result<Self, MemoryError>)
        ensures
            r is Ok <==> lookup_succeeds(*meminfo, free_name@, total_name@),
            r matches Err(e) ==> lookup_fails_with(*meminfo, free_name@, total_name@, e),
            r matches Ok(u) ==> u.used_bytes <= u.total_bytes && u.describes(
                name@,
                meminfo->Ok_0@,
                free_name@,
                total_name@,
            ),
    {
        let info = match meminfo {
            Err(failure) => {
                return Err(failure.duplicate());
            },
            Ok(v) => v,
        };
        let total = match find_quantity(info, total_name) {
            None => {
                return Err(MemoryError::MemoryNotFound { quantity: total_name.clone() });
            },
            Some(t) => t,
        };
        let free = match find_quantity(info, free_name) {
            None => {
                return Err(MemoryError::MemoryNotFound { quantity: free_name.clone() });
            },
            Some(f) => f,
        };
        let used = total.saturating_sub(free);
        Ok(MemoryUsage {
            name,
            used: format_bytes(used),
            total: format_bytes(total),
            used_bytes: used,
            total_bytes: total,
        })
    }
}

/// The value of the last quantity of `info` called `name`.
pub fn find_quantity(info: &Vec<(String, u64)>, name: &String) -> (r: Option<u64>)
    ensures
        r is None <==> !has_quantity(info@, name@),
        r matches Some(v) ==> v == quantity(info@, name@),
{
    let mut found: Option<u64> = None;
    let mut i: usize = 0;
    while i < info.len()
        invariant
            i <= info@.len(),
            found is None <==> quantity_index(info@.take(i as int), name@) == -1,
            found matches Some(v) ==> quantity_index(info@.take(i as int), name@) >= 0
                && v == info@[quantity_index(info@.take(i as int), name@)].1,
            quantity_index(info@.take(i as int), name@) < i,
        decreases info@.len() - i,
    {
        assert(info@.take(i as int + 1).drop_last() =~= info@.take(i as int));
        if info[i].0 == *name {
            found = Some(info[i].1);
        }
        i = i + 1;
    }
    assert(info@.take(i as int) =~= info@);
    found
}

/// Bytes used in a pool: its total less its free quantity, at least zero.
pub open spec fn pool_used(info: Seq<(String, u64)>, free_name: Seq<char>, total_name: Seq<char>) -> u64 {
    sat_sub(quantity(info, total_name) as int, quantity(info, free_name) as int) as u64
}

/// Caption of a pool: `name: used / total`.
pub open spec fn pool_label(name: Seq<char>, info: Seq<(String, u64)>, free_name: Seq<char>, total_name: Seq<char>) -> Seq<char> {
    name + ": "@ + byte_size_text(pool_used(info, free_name, total_name)) + " / "@
        + byte_size_text(quantity(info, total_name))
}

/// Bar of `width` cells for a pool.
pub open spec fn pool_bar(info: Seq<(String, u64)>, free_name: Seq<char>, total_name: Seq<char>, width: int) -> Bar {
    Bar::spec_of(
        pool_used(info, free_name, total_name) as int,
        quantity(info, total_name) as int,
        width,
    )
}

/// Width of the whole widget: the assigned width, else the configured
/// progress width less one indentation.
pub open spec fn line_width(config: GlobalConfig, width: Option<usize>) -> int {
    match width {
        Some(w) => w as int,
        None => sat_sub(config.progress_width as int, INDENT_WIDTH as int),
    }
}

/// Bar width when each bar has a line of its own.
pub open spec fn full_bar_width(config: GlobalConfig, width: Option<usize>) -> int {
    sat_sub(line_width(config, width), config.decoration_len())
}

/// Bar width when two bars share a line.
pub open spec fn half_bar_width(config: GlobalConfig, width: Option<usize>) -> int {
    sat_sub(full_bar_width(config, width) / 2, INDENT_WIDTH as int)
}

/// Caption line of two pools side by side: the second caption starts where
/// the second bar's decoration starts, or right after the first caption.
pub open spec fn side_by_side(first: Seq<char>, second: Seq<char>, bar_width: int) -> Seq<char> {
    spaces_spec(INDENT_WIDTH as nat) + first + spaces_spec(
        sat_sub(bar_width + 2 * INDENT_WIDTH, first.len() as int) as nat,
    ) + second
}

impl Memory {
    /// Widget that shows swap at `swap_pos`.
    pub fn new(swap_pos: SwapPosition) -> (r: Self)
        ensures
            r.swap_pos == swap_pos,
    {
        Memory { swap_pos }
    }

    /// Whether swap figures are needed.
    pub open spec fn shows_swap(&self) -> bool {
        self.swap_pos != SwapPosition::Omitted
    }

    /// `lines` are the widget's output for the figures `info`.
    pub open spec fn shows(&self, lines: Seq<Line>, config: GlobalConfig, width: Option<usize>, info: Seq<(String, u64)>) -> bool {
        let ram = pool_label("RAM"@, info, "MemAvailable"@, "MemTotal"@);
        let swap = pool_label("Swap"@, info, "SwapFree"@, "SwapTotal"@);
        let full = full_bar_width(config, width);
        let half = half_bar_width(config, width);
        &&& lines[0].is_text("Memory"@)
        &&& match self.swap_pos {
            SwapPosition::Below => {
                &&& lines.len() == 5
                &&& lines[1].is_text(spaces_spec(INDENT_WIDTH as nat) + ram)
                &&& lines[2].is_bars(seq![pool_bar(info, "MemAvailable"@, "MemTotal"@, full)])
                &&& lines[3].is_text(spaces_spec(INDENT_WIDTH as nat) + swap)
                &&& lines[4].is_bars(seq![pool_bar(info, "SwapFree"@, "SwapTotal"@, full)])
            },
            SwapPosition::Beside => {
                &&& lines.len() == 3
                &&& lines[1].is_text(side_by_side(ram, swap, half))
                &&& lines[2].is_bars(seq![
                    pool_bar(info, "MemAvailable"@, "MemTotal"@, half),
                    pool_bar(info, "SwapFree"@, "SwapTotal"@, half),
                ])
            },
            SwapPosition::Omitted => {
                &&& lines.len() == 3
                &&& lines[1].is_text(spaces_spec(INDENT_WIDTH as nat) + ram)
                &&& lines[2].is_bars(seq![pool_bar(info, "MemAvailable"@, "MemTotal"@, full)])
            },
        }
    }

    /// `r` is what drawing this widget from the figures `meminfo` gives: the
    /// RAM lookup fails first, then the swap lookup where swap is shown.
    pub open spec fn outcome(
        &self,
        config: GlobalConfig,
        width: Option<usize>,
        meminfo: Result<Vec<(String, u64)>, MemoryError>,
        r: Result<Vec<Line>, MemoryError>,
    ) -> bool {
        &&& (r is Ok <==> lookup_succeeds(meminfo, "MemAvailable"@, "MemTotal"@) && (!self.shows_swap()
            || lookup_succeeds(meminfo, "SwapFree"@, "SwapTotal"@)))
        &&& (r matches Err(e) ==> if !lookup_succeeds(meminfo, "MemAvailable"@, "MemTotal"@) {
            lookup_fails_with(meminfo, "MemAvailable"@, "MemTotal"@, e)
        } else {
            lookup_fails_with(meminfo, "SwapFree"@, "SwapTotal"@, e)
        })
        &&& (r matches Ok(lines) ==> self.shows(lines@, config, width, meminfo->Ok_0@))
    }

    /// Reads RAM (and, unless swap is omitted, swap) from the host's memory
    /// figures and lays out their captions and bars in `width` columns.
    pub fn print_or_error(
        self,
        global_config: &GlobalConfig,
        width: Option<usize>,
        meminfo: &Result<Vec<(String, u64)>, MemoryError>,
    ) -> (r: Result<Vec<Line>, MemoryError>)
        ensures
            self.outcome(*global_config, width, *meminfo, r),
    {
        let width = match width {
            Some(w) => w,
            None => global_config.progress_width.saturating_sub(INDENT_WIDTH),
        };
        let decoration = global_config.decoration_width();
        let ram = MemoryUsage::get_by_name(
            "RAM".to_string(),
            meminfo,
            &"MemAvailable".to_string(),
            &"MemTotal".to_string(),
        )?;
        let mut lines: Vec<Line> = Vec::new();
        lines.push(Line::Text("Memory".to_string()));
        let mut ram_text = spaces(INDENT_WIDTH);
        let ram_label = ram.label_string();
        ram_text.append(ram_label.as_str());
        match self.swap_pos {
            SwapPosition::Below => {
                let swap = MemoryUsage::get_by_name(
                    "Swap".to_string(),
                    meminfo,
                    &"SwapFree".to_string(),
                    &"SwapTotal".to_string(),
                )?;
                let bar_width = width.saturating_sub(decoration);
                let mut swap_text = spaces(INDENT_WIDTH);
                swap_text.append(swap.label_string().as_str());
                let ram_bar = Bar::new(ram.used_bytes, ram.total_bytes, bar_width);
                let swap_bar = Bar::new(swap.used_bytes, swap.total_bytes, bar_width);
                let ram_bars = vec![ram_bar];
                let swap_bars = vec![swap_bar];
                assert(ram_bars@ =~= seq![ram_bar]);
                assert(swap_bars@ =~= seq![swap_bar]);
                lines.push(Line::Text(ram_text));
                lines.push(Line::Bars(ram_bars));
                lines.push(Line::Text(swap_text));
                lines.push(Line::Bars(swap_bars));
            },
            SwapPosition::Beside => {
                let swap = MemoryUsage::get_by_name(
                    "Swap".to_string(),
                    meminfo,
                    &"SwapFree".to_string(),
                    &"SwapTotal".to_string(),
                )?;
                let bar_width = (width.saturating_sub(decoration) / 2).saturating_sub(INDENT_WIDTH);
                let gap = (bar_width + 2 * INDENT_WIDTH).saturating_sub(ram_label.as_str().unicode_len());
                let mut text = spaces(INDENT_WIDTH);
                text.append(ram_label.as_str());
                text.append(spaces(gap).as_str());
                text.append(swap.label_string().as_str());
                lines.push(Line::Text(text));
                lines.push(Line::Bars(vec![
                    Bar::new(ram.used_bytes, ram.total_bytes, bar_width),
                    Bar::new(swap.used_bytes, swap.total_bytes, bar_width),
                ]));
            },
            SwapPosition::Omitted => {
                let bar_width = width.saturating_sub(decoration);
                let ram_bar = Bar::new(ram.used_bytes, ram.total_bytes, bar_width);
                let ram_bars = vec![ram_bar];
                assert(ram_bars@ =~= seq![ram_bar]);
                lines.push(Line::Text(ram_text));
                lines.push(Line::Bars(ram_bars));
            },
        }
        Ok(lines)
    }
}

} // verus!
