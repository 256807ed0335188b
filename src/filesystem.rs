use vstd::prelude::*;
use crate::bar::Bar;
use crate::config::{clamp_usize, sat_sub, GlobalConfig, INDENT_WIDTH};
use crate::line::{Constraints, Line};
use crate::text::{
    byte_size_text, format_bytes, join_with, joined, pad_right, pad_spec, spaces, spaces_spec,
    views,
};

verus! {

/// Number of columns of the filesystem table.
pub const COLUMNS: usize = 6;

/// Titles of the table's columns.
pub open spec fn header_spec() -> Seq<Seq<char>> {
    seq!["Filesystems"@, "Device"@, "Mount"@, "Type"@, "Used"@, "Total"@]
}

/// Widget that shows the usage of configured mount points.
#[derive(Clone, Debug)]
pub struct Filesystems {
    /// Pairs of display name and mount point, in display order.
    pub mounts: Vec<(String, String)>,
}

/// What the host reports about one mounted filesystem.
#[derive(Clone, Debug)]
pub struct MountInfo {
    pub fs_mounted_on: String,
    pub fs_mounted_from: String,
    pub fs_type: String,
    /// Size in bytes.
    pub total: u64,
    /// Bytes available.
    pub avail: u64,
}

/// Why the filesystem widget could not be prepared.
#[derive(Clone, Debug)]
pub enum FilesystemsError {
    /// The widget names no mount point at all.
    ConfigEmpty,
    /// A configured mount point is not mounted on this host.
    MountNotFound { mount_point: String },
    /// The host's mount table could not be read.
    IO { message: String },
}

impl FilesystemsError {
    /// The text shown for this error.
    pub open spec fn message_spec(&self) -> Seq<char> {
        match self {
            FilesystemsError::ConfigEmpty => "Empty configuration for filesystems. Please remove the entire block to disable this component."@,
            FilesystemsError::MountNotFound { mount_point } => "Could not find mount \""@ + mount_point@ + "\""@,
            FilesystemsError::IO { message } => message@,
        }
    }

    /// The text shown for this error.
    pub fn message(&self) -> (r: String)
        ensures
            r@ == self.message_spec(),
    {
        match self {
            FilesystemsError::ConfigEmpty => "Empty configuration for filesystems. Please remove the entire block to disable this component.".to_string(),
            FilesystemsError::MountNotFound { mount_point } => {
                let mut r = "Could not find mount \"".to_string();
                r.append(mount_point.as_str());
                r.append("\"");
                r
            },
            FilesystemsError::IO { message } => message.clone(),
        }
    }
}

/// One row of the table.
#[derive(Clone, Debug)]
pub struct Entry {
    pub filesystem_name: String,
    pub dev: String,
    pub mount_point: String,
    pub fs_type: String,
    pub used: String,
    pub total: String,
    pub used_bytes: u64,
    pub total_bytes: u64,
}

/// A filesystem widget with its rows and layout computed.
#[derive(Clone, Debug)]
pub struct PreparedFilesystems {
    pub column_sizes: Vec<usize>,
    pub entries: Vec<Entry>,
    pub bar_width: usize,
}

/// No two pairs share a display name.
pub open spec fn distinct_names(pairs: Seq<(String, String)>) -> bool {
    forall|a: int, b: int| 0 <= a < b < pairs.len() ==> #[trigger] pairs[a].0@ != #[trigger] pairs[b].0@
}

/// Index of the last mount of `ms` mounted on `point`, or -1.
pub open spec fn mount_index(ms: Seq<MountInfo>, point: Seq<char>) -> int
    decreases ms.len(),
{
    if ms.len() == 0 {
        -1
    } else if ms.last().fs_mounted_on@ == point {
        ms.len() - 1
    } else {
        mount_index(ms.drop_last(), point)
    }
}

/// Whether `point` is mounted according to `ms`.
pub open spec fn is_mounted(ms: Seq<MountInfo>, point: Seq<char>) -> bool {
    mount_index(ms, point) >= 0
}

/// The first configured mount point that is not mounted is the one at `i`.
pub open spec fn first_missing(cfg: Seq<(String, String)>, ms: Seq<MountInfo>, i: int) -> bool {
    &&& 0 <= i < cfg.len()
    &&& !is_mounted(ms, cfg[i].1@)
    &&& forall|k: int| 0 <= k < i ==> is_mounted(ms, #[trigger] cfg[k].1@)
}

/// Every configured mount point is mounted.
pub open spec fn all_mounted(cfg: Seq<(String, String)>, ms: Seq<MountInfo>) -> bool {
    forall|k: int| 0 <= k < cfg.len() ==> is_mounted(ms, #[trigger] cfg[k].1@)
}

/// Width of column `j`: the widest of its title and its cells.
pub open spec fn column_width(entries: Seq<Entry>, j: int) -> int
    decreases entries.len(),
{
    if entries.len() == 0 {
        header_spec()[j].len() as int
    } else {
        let rest = column_width(entries.drop_last(), j);
        let here = entries.last().cells()[j].len() as int;
        if here > rest {
            here
        } else {
            rest
        }
    }
}

/// Sum of a sequence of widths.
pub open spec fn width_sum(s: Seq<usize>) -> int
    decreases s.len(),
{
    if s.len() == 0 {
        0
    } else {
        width_sum(s.drop_last()) + s.last()
    }
}

/// Width of a table with these column sizes: the columns and the separators
/// between the five columns after the first title, clamped to `usize`.
pub open spec fn table_width(sizes: Seq<usize>) -> int {
    clamp_usize(width_sum(sizes) + 4 * INDENT_WIDTH)
}

/// One table line: as many cells as there are widths for, each padded to
/// its column, separated by indentation.
pub open spec fn row_spec(cells: Seq<Seq<char>>, sizes: Seq<usize>) -> Seq<char> {
    let n = if cells.len() < sizes.len() {
        cells.len()
    } else {
        sizes.len()
    };
    joined(
        Seq::new(n, |j: int| pad_spec(cells[j], sizes[j] as nat)),
        spaces_spec(INDENT_WIDTH as nat),
    )
}

impl Entry {
    /// The table cells of this row; the name is indented.
    pub open spec fn cells(&self) -> Seq<Seq<char>> {
        seq![
            spaces_spec(INDENT_WIDTH as nat) + self.filesystem_name@,
            self.dev@,
            self.mount_point@,
            self.fs_type@,
            self.used@,
            self.total@,
        ]
    }

    /// This row shows the filesystem `m` under the name `name`.
    pub open spec fn describes(&self, name: Seq<char>, m: MountInfo) -> bool {
        &&& self.filesystem_name@ == name
        &&& self.dev@ == m.fs_mounted_from@
        &&& self.mount_point@ == m.fs_mounted_on@
        &&& self.fs_type@ == m.fs_type@
        &&& self.total_bytes == m.total
        &&& self.used_bytes as int == sat_sub(m.total as int, m.avail as int)
        &&& self.used@ == byte_size_text(self.used_bytes)
        &&& self.total@ == byte_size_text(self.total_bytes)
    }

    /// The table cells of this row.
    pub fn cell_strings(&self) -> (r: Vec<String>)
        ensures
            r@.len() == COLUMNS,
            views(r@) == self.cells(),
    {
        let mut name = spaces(INDENT_WIDTH);
        name.append(self.filesystem_name.as_str());
        let r = vec![
            name,
            self.dev.clone(),
            self.mount_point.clone(),
            self.fs_type.clone(),
            self.used.clone(),
            self.total.clone(),
        ];
        assert(views(r@) =~= self.cells());
        r
    }
}

/// The column titles.
pub fn header() -> (r: Vec<String>)
    ensures
        r@.len() == COLUMNS,
        views(r@) == header_spec(),
{
    let r = vec![
        "Filesystems".to_string(),
        "Device".to_string(),
        "Mount".to_string(),
        "Type".to_string(),
        "Used".to_string(),
        "Total".to_string(),
    ];
    assert(views(r@) =~= header_spec());
    r
}

/// Turns what the host reports about a mount into a table row.
pub fn parse_into_entry(filesystem_name: String, mount: &MountInfo) -> (r: Entry)
    ensures
        r.describes(filesystem_name@, *mount),
        r.used_bytes <= r.total_bytes,
{
    let total = mount.total;
    let used = total.saturating_sub(mount.avail);
    Entry {
        filesystem_name,
        dev: mount.fs_mounted_from.clone(),
        mount_point: mount.fs_mounted_on.clone(),
        fs_type: mount.fs_type.clone(),
        used: format_bytes(used),
        total: format_bytes(total),
        used_bytes: used,
        total_bytes: total,
    }
}

/// Index of the last mount of `mounts` mounted on `point`.
pub fn find_mount(mounts: &Vec<MountInfo>, point: &String) -> (r: Option<usize>)
    ensures
        r is None <==> mount_index(mounts@, point@) == -1,
        r matches Some(i) ==> i == mount_index(mounts@, point@),
{
    let mut found: Option<usize> = None;
    let mut i: usize = 0;
    while i < mounts.len()
        invariant
            i <= mounts@.len(),
            found is None <==> mount_index(mounts@.take(i as int), point@) == -1,
            found matches Some(k) ==> k == mount_index(mounts@.take(i as int), point@),
        decreases mounts@.len() - i,
    {
        assert(mounts@.take(i as int + 1).drop_last() =~= mounts@.take(i as int));
        if mounts[i].fs_mounted_on == *point {
            found = Some(i);
        }
        i = i + 1;
    }
    assert(mounts@.take(i as int) =~= mounts@);
    found
}

proof fn lemma_mount_index_range(ms: Seq<MountInfo>, point: Seq<char>)
    ensures
        -1 <= mount_index(ms, point) < ms.len(),
        mount_index(ms, point) >= 0 ==> ms[mount_index(ms, point)].fs_mounted_on@ == point,
    decreases ms.len(),
{
    if ms.len() > 0 {
        lemma_mount_index_range(ms.drop_last(), point);
    }
}

/// Each cell of `e` fits its column.
pub proof fn lemma_cells_fit(entries: Seq<Entry>, i: int, j: int)
    requires
        0 <= i < entries.len(),
        0 <= j < COLUMNS,
    ensures
        entries[i].cells()[j].len() <= column_width(entries, j),
        header_spec()[j].len() <= column_width(entries, j),
    decreases entries.len(),
{
    let rest = entries.drop_last();
    if i < entries.len() - 1 {
        lemma_cells_fit(rest, i, j);
        assert(rest[i] == entries[i]);
    } else if entries.len() > 1 {
        lemma_cells_fit(rest, 0, j);
    }
    assert(column_width(rest, j) <= column_width(entries, j));
}

/// The width of each column of a table of `entries`, titles included.
pub fn column_sizes_of(entries: &Vec<Entry>) -> (r: Vec<usize>)
    ensures
        r@.len() == COLUMNS,
        forall|j: int| 0 <= j < COLUMNS ==> r@[j] == column_width(entries@, j),
{
    let titles = header();
    let mut sizes: Vec<usize> = Vec::new();
    let mut j: usize = 0;
    while j < COLUMNS
        invariant
            j <= COLUMNS,
            views(titles@) == header_spec(),
            titles@.len() == COLUMNS,
            sizes@.len() == j,
            forall|k: int| 0 <= k < j ==> sizes@[k] == header_spec()[k].len(),
        decreases COLUMNS - j,
    {
        assert(titles@[j as int]@ == header_spec()[j as int]);
        sizes.push(titles[j].as_str().unicode_len());
        j = j + 1;
    }
    assert(entries@.take(0) =~= Seq::<Entry>::empty());
    let mut i: usize = 0;
    while i < entries.len()
        invariant
            i <= entries@.len(),
            sizes@.len() == COLUMNS,
            forall|k: int| 0 <= k < COLUMNS ==> sizes@[k] == column_width(entries@.take(i as int), k),
        decreases entries@.len() - i,
    {
        let cells = entries[i].cell_strings();
        let ghost prev = entries@.take(i as int);
        let ghost next = entries@.take(i as int + 1);
        assert(next.drop_last() =~= prev);
        assert(next.last() == entries@[i as int]);
        let mut j: usize = 0;
        while j < COLUMNS
            invariant
                j <= COLUMNS,
                i < entries@.len(),
                sizes@.len() == COLUMNS,
                cells@.len() == COLUMNS,
                views(cells@) == entries@[i as int].cells(),
                next.drop_last() == prev,
                next.last() == entries@[i as int],
                next.len() > 0,
                forall|k: int| 0 <= k < j ==> sizes@[k] == column_width(next, k),
                forall|k: int| j <= k < COLUMNS ==> sizes@[k] == column_width(prev, k),
            decreases COLUMNS - j,
        {
            assert(cells@[j as int]@ == entries@[i as int].cells()[j as int]);
            let len = cells[j].as_str().unicode_len();
            assert(next.last().cells()[j as int].len() == len);
            assert(column_width(next, j as int) == if len as int > column_width(prev, j as int) {
                len as int
            } else {
                column_width(prev, j as int)
            });
            if len > sizes[j] {
                sizes.set(j, len);
            }
            j = j + 1;
        }
        i = i + 1;
    }
    assert(entries@.take(entries@.len() as int) =~= entries@);
    sizes
}

/// Sum of `sizes`, clamped to `usize`.
pub fn sum_widths(sizes: &Vec<usize>) -> (r: usize)
    ensures
        r as int == clamp_usize(width_sum(sizes@)),
{
    let mut acc: usize = 0;
    let mut i: usize = 0;
    while i < sizes.len()
        invariant
            i <= sizes@.len(),
            acc as int == clamp_usize(width_sum(sizes@.take(i as int))),
        decreases sizes@.len() - i,
    {
        assert(sizes@.take(i as int + 1).drop_last() =~= sizes@.take(i as int));
        acc = acc.saturating_add(sizes[i]);
        i = i + 1;
    }
    assert(sizes@.take(i as int) =~= sizes@);
    acc
}

/// One table line: the cells that have a width in `sizes`, each padded to
/// that width, joined by indentation.
pub fn render_row(cells: Vec<String>, sizes: &Vec<usize>) -> (r: String)
    ensures
        r@ == row_spec(views(cells@), sizes@),
{
    let n = if cells.len() < sizes.len() {
        cells.len()
    } else {
        sizes.len()
    };
    let mut padded: Vec<String> = Vec::new();
    let mut j: usize = 0;
    while j < n
        invariant
            j <= n,
            n <= cells@.len(),
            n <= sizes@.len(),
            padded@.len() == j,
            forall|k: int| 0 <= k < j ==> #[trigger] padded@[k]@ == pad_spec(cells@[k]@, sizes@[k] as nat),
        decreases n - j,
    {
        padded.push(pad_right(cells[j].as_str(), sizes[j]));
        j = j + 1;
    }
    let ghost want = Seq::new(n as nat, |k: int| pad_spec(views(cells@)[k], sizes@[k] as nat));
    assert(views(padded@) =~= want);
    join_with(padded, spaces(INDENT_WIDTH))
}

impl Filesystems {
    /// `r` is what preparing this widget against the host's mount table
    /// `host_mounts` gives: an empty configuration is refused first, then an
    /// unreadable mount table, then the first configured mount point that is
    /// not mounted; otherwise the table, whose width is the minimum width.
    pub open spec fn outcome(
        &self,
        config: GlobalConfig,
        host_mounts: Result<Vec<MountInfo>, String>,
        r: Result<(PreparedFilesystems, Constraints), FilesystemsError>,
    ) -> bool {
        &&& (self.mounts@.len() == 0 <==> r matches Err(FilesystemsError::ConfigEmpty))
        &&& self.mounts@.len() > 0 ==> match host_mounts {
            Err(m) => (r matches Err(FilesystemsError::IO { message }) && message@ == m@),
            Ok(ms) => {
                &&& r is Ok <==> all_mounted(self.mounts@, ms@)
                &&& r is Err ==> (r matches Err(FilesystemsError::MountNotFound { mount_point })
                    && exists|i: int| first_missing(self.mounts@, ms@, i) && mount_point@ == self.mounts@[i].1@)
                &&& (r matches Ok((p, c)) ==> p.shows(self.mounts@, ms@, config)
                    && c.min_width == Some(table_width(p.column_sizes@) as usize))
            },
        }
    }

    /// Each display name occurs once, as the keys of a table do.
    pub open spec fn wf(&self) -> bool {
        distinct_names(self.mounts@)
    }

    /// Widget for these pairs of display name and mount point.
    pub fn new(mounts: Vec<(String, String)>) -> (r: Self)
        requires
            distinct_names(mounts@),
        ensures
            r.mounts@ == mounts@,
            r.wf(),
    {
        Self { mounts }
    }

    /// Looks up every configured mount point in the host's mount table and
    /// lays out the table: the rows, the column widths and the bar width.
    /// The reported minimum width is the width of the table.
    pub fn prepare_or_error(&self, config: &GlobalConfig, host_mounts: &Result<Vec<MountInfo>, String>) -> (r: Result<(PreparedFilesystems, Constraints), FilesystemsError>)
        ensures
            self.outcome(*config, *host_mounts, r),
    {
        if self.mounts.len() == 0 {
            return Err(FilesystemsError::ConfigEmpty);
        }
        let ms = match host_mounts {
            Err(m) => {
                return Err(FilesystemsError::IO { message: m.clone() });
            },
            Ok(ms) => ms,
        };
        let mut entries: Vec<Entry> = Vec::new();
        let mut i: usize = 0;
        while i < self.mounts.len()
            invariant
                i <= self.mounts@.len(),
                self.mounts@.len() > 0,
                host_mounts is Ok,
                host_mounts->Ok_0 == *ms,
                entries@.len() == i,
                forall|k: int| 0 <= k < i ==> is_mounted(ms@, #[trigger] self.mounts@[k].1@),
                forall|k: int| 0 <= k < i ==> #[trigger] entries@[k].describes(
                    self.mounts@[k].0@,
                    ms@[mount_index(ms@, self.mounts@[k].1@)],
                ),
                forall|k: int| 0 <= k < i ==> #[trigger] entries@[k].used_bytes <= entries@[k].total_bytes,
            decreases self.mounts@.len() - i,
        {
            let name = self.mounts[i].0.clone();
            let point = &self.mounts[i].1;
            match find_mount(ms, point) {
                None => {
                    assert(point@ == self.mounts@[i as int].1@);
                    assert(!is_mounted(ms@, self.mounts@[i as int].1@));
                    assert(first_missing(self.mounts@, ms@, i as int));
                    assert(!all_mounted(self.mounts@, ms@));
                    return Err(FilesystemsError::MountNotFound { mount_point: point.clone() });
                },
                Some(k) => {
                    proof {
                        lemma_mount_index_range(ms@, point@);
                    }
                    entries.push(parse_into_entry(name, &ms[k]));
                },
            }
            i = i + 1;
        }
        let column_sizes = column_sizes_of(&entries);
        let table = sum_widths(&column_sizes).saturating_add(4 * INDENT_WIDTH);
        let bar_width = table.saturating_sub(config.decoration_width());
        let prepared = PreparedFilesystems { column_sizes, entries, bar_width };
        Ok((prepared, Constraints { min_width: Some(table) }))
    }
}

impl PreparedFilesystems {
    /// The rows and layout show the configured mounts `cfg` as found in `ms`.
    pub open spec fn shows(&self, cfg: Seq<(String, String)>, ms: Seq<MountInfo>, config: GlobalConfig) -> bool {
        &&& self.wf()
        &&& self.entries@.len() == cfg.len()
        &&& forall|i: int| 0 <= i < cfg.len() ==> #[trigger] self.entries@[i].describes(
            cfg[i].0@,
            ms[mount_index(ms, cfg[i].1@)],
        )
        &&& forall|j: int| 0 <= j < COLUMNS ==> #[trigger] self.column_sizes@[j] == column_width(self.entries@, j)
        &&& self.bar_width as int == sat_sub(table_width(self.column_sizes@), config.decoration_len())
    }

    /// Layout data that rendering relies on.
    pub open spec fn wf(&self) -> bool {
        &&& self.column_sizes@.len() == COLUMNS
        &&& forall|i: int| 0 <= i < self.entries@.len() ==> #[trigger] self.entries@[i].used_bytes <= self.entries@[i].total_bytes
    }

    /// `lines` show row `i` of the table: its text line, then its bar.
    pub open spec fn shows_entry(&self, lines: Seq<Line>, i: int) -> bool {
        &&& lines[1 + 2 * i].is_text(row_spec(self.entries@[i].cells(), self.column_sizes@))
        &&& lines[2 + 2 * i].is_bars(seq![Bar::spec_of(
            self.entries@[i].used_bytes as int,
            self.entries@[i].total_bytes as int,
            self.bar_width as int,
        )])
    }

    /// `lines` are the table: the titles, then for each row its text line
    /// and a bar of `bar_width` cells.
    pub open spec fn renders(&self, lines: Seq<Line>) -> bool {
        &&& lines.len() == 1 + 2 * self.entries@.len()
        &&& lines[0].is_text(row_spec(header_spec(), self.column_sizes@))
        &&& forall|i: int| 0 <= i < self.entries@.len() ==> #[trigger] self.shows_entry(lines, i)
    }

    /// The lines of the table: the titles, then for each row its text line
    /// and a bar of `bar_width` cells.
    pub fn print_or_error(self) -> (r: Vec<Line>)
        requires
            self.wf(),
        ensures
            self.renders(r@),
    {
        let mut lines: Vec<Line> = Vec::new();
        lines.push(Line::Text(render_row(header(), &self.column_sizes)));
        let mut i: usize = 0;
        while i < self.entries.len()
            invariant
                self.wf(),
                i <= self.entries@.len(),
                lines@.len() == 1 + 2 * i,
                lines@[0].is_text(row_spec(header_spec(), self.column_sizes@)),
                forall|k: int| 0 <= k < i ==> #[trigger] self.shows_entry(lines@, k),
            decreases self.entries@.len() - i,
        {
            let entry = &self.entries[i];
            let row = render_row(entry.cell_strings(), &self.column_sizes);
            let bar = Bar::new(entry.used_bytes, entry.total_bytes, self.bar_width);
            let bars = vec![bar];
            let ghost before = lines@;
            lines.push(Line::Text(row));
            assert(bars@ =~= seq![bar]);
            lines.push(Line::Bars(bars));
            assert(lines@[1 + 2 * i as int] == Line::Text(row));
            assert(lines@[2 + 2 * i as int] == Line::Bars(bars));
            assert forall|k: int| 0 <= k < i + 1 implies #[trigger] self.shows_entry(lines@, k) by {
                if k < i {
                    assert(self.shows_entry(before, k));
                    assert(lines@[1 + 2 * k] == before[1 + 2 * k]);
                    assert(lines@[2 + 2 * k] == before[2 + 2 * k]);
                }
            }
            i = i + 1;
        }
        lines
    }
}

/// Padding a text to a width it fits keeps the whole text and fills the
/// width exactly.
pub proof fn lemma_pad_keeps_text(t: Seq<char>, width: nat)
    requires
        t.len() <= width,
    ensures
        pad_spec(t, width).len() == width,
        pad_spec(t, width).subrange(0, t.len() as int) == t,
{
    assert(pad_spec(t, width).subrange(0, t.len() as int) =~= t);
}

/// In a prepared table every title and every cell fits its column, so each
/// line shows it whole, padded to exactly the column's width; the width the
/// widget asks for is the sum of the column widths plus the separators.
pub proof fn lemma_table_not_truncated(
    p: PreparedFilesystems,
    cfg: Seq<(String, String)>,
    ms: Seq<MountInfo>,
    config: GlobalConfig,
    i: int,
    j: int,
)
    requires
        p.shows(cfg, ms, config),
        0 <= i < p.entries@.len(),
        0 <= j < COLUMNS,
    ensures
        pad_spec(p.entries@[i].cells()[j], p.column_sizes@[j] as nat).len() == p.column_sizes@[j],
        pad_spec(p.entries@[i].cells()[j], p.column_sizes@[j] as nat).subrange(
            0,
            p.entries@[i].cells()[j].len() as int,
        ) == p.entries@[i].cells()[j],
        pad_spec(header_spec()[j], p.column_sizes@[j] as nat).len() == p.column_sizes@[j],
        pad_spec(header_spec()[j], p.column_sizes@[j] as nat).subrange(0, header_spec()[j].len() as int)
            == header_spec()[j],
        table_width(p.column_sizes@) == clamp_usize(width_sum(p.column_sizes@) + 4 * INDENT_WIDTH),
{
    lemma_cells_fit(p.entries@, i, j);
    assert(p.column_sizes@[j] == column_width(p.entries@, j));
    lemma_pad_keeps_text(p.entries@[i].cells()[j], p.column_sizes@[j] as nat);
    lemma_pad_keeps_text(header_spec()[j], p.column_sizes@[j] as nat);
}

/// Where the column widths and separators fit a `usize`, the width a
/// prepared table asks for is exactly their sum.
pub proof fn lemma_min_width_is_column_sum(sizes: Seq<usize>)
    requires
        width_sum(sizes) + 4 * INDENT_WIDTH <= usize::MAX,
    ensures
        table_width(sizes) == width_sum(sizes) + 4 * INDENT_WIDTH,
{
}

/// Total number of characters of some pieces of text.
pub open spec fn lens_sum(cells: Seq<Seq<char>>) -> int
    decreases cells.len(),
{
    if cells.len() == 0 {
        0
    } else {
        lens_sum(cells.drop_last()) + cells.last().len()
    }
}

proof fn lemma_joined_len(cells: Seq<Seq<char>>, sep: Seq<char>)
    requires
        cells.len() >= 1,
    ensures
        joined(cells, sep).len() == lens_sum(cells) + (cells.len() - 1) * sep.len(),
    decreases cells.len(),
{
    if cells.len() > 1 {
        lemma_joined_len(cells.drop_last(), sep);
        let n = cells.len() as int;
        let k = sep.len() as int;
        assert((n - 2) * k + k == (n - 1) * k) by (nonlinear_arith);
    } else {
        assert(lens_sum(cells.drop_last()) == 0);
    }
}

proof fn lemma_padded_sum(cells: Seq<Seq<char>>, sizes: Seq<usize>)
    requires
        cells.len() == sizes.len(),
        forall|j: int| 0 <= j < cells.len() ==> #[trigger] cells[j].len() <= sizes[j],
    ensures
        lens_sum(Seq::new(cells.len(), |j: int| pad_spec(cells[j], sizes[j] as nat))) == width_sum(sizes),
    decreases cells.len(),
{
    if cells.len() > 0 {
        let n = cells.len() as int;
        let rest_cells = cells.drop_last();
        let rest_sizes = sizes.drop_last();
        assert forall|j: int| 0 <= j < rest_cells.len() implies #[trigger] rest_cells[j].len() <= rest_sizes[j] by {
            assert(rest_cells[j] == cells[j]);
        }
        lemma_padded_sum(rest_cells, rest_sizes);
        let all = Seq::new(cells.len(), |j: int| pad_spec(cells[j], sizes[j] as nat));
        assert(all.drop_last() =~= Seq::new(rest_cells.len(), |j: int| pad_spec(rest_cells[j], rest_sizes[j] as nat)));
        lemma_pad_keeps_text(cells[n - 1], sizes[n - 1] as nat);
    }
}

/// Every line of a prepared table, titles and rows alike, is exactly as
/// wide as its column widths plus five separators.
pub proof fn lemma_row_width(
    p: PreparedFilesystems,
    cfg: Seq<(String, String)>,
    ms: Seq<MountInfo>,
    config: GlobalConfig,
    i: int,
)
    requires
        p.shows(cfg, ms, config),
        0 <= i < p.entries@.len(),
    ensures
        row_spec(p.entries@[i].cells(), p.column_sizes@).len() == width_sum(p.column_sizes@) + 5 * INDENT_WIDTH,
        row_spec(header_spec(), p.column_sizes@).len() == width_sum(p.column_sizes@) + 5 * INDENT_WIDTH,
{
    let sizes = p.column_sizes@;
    let cells = p.entries@[i].cells();
    assert forall|j: int| 0 <= j < cells.len() implies #[trigger] cells[j].len() <= sizes[j] by {
        lemma_cells_fit(p.entries@, i, j);
    }
    assert forall|j: int| 0 <= j < header_spec().len() implies #[trigger] header_spec()[j].len() <= sizes[j] by {
        lemma_cells_fit(p.entries@, i, j);
    }
    lemma_padded_sum(cells, sizes);
    lemma_padded_sum(header_spec(), sizes);
    lemma_joined_len(Seq::new(cells.len(), |j: int| pad_spec(cells[j], sizes[j] as nat)), spaces_spec(INDENT_WIDTH as nat));
    lemma_joined_len(
        Seq::new(header_spec().len(), |j: int| pad_spec(header_spec()[j], sizes[j] as nat)),
        spaces_spec(INDENT_WIDTH as nat),
    );
}

} // verus!
