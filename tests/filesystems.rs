use motd_widgets::bar::Tier;
use motd_widgets::component::{Component, HostData};
use motd_widgets::config::GlobalConfig;
use motd_widgets::dashboard::print_all;
use motd_widgets::filesystem::{
    parse_into_entry, render_row, Filesystems, FilesystemsError, MountInfo,
};
use motd_widgets::line::Line;
use motd_widgets::memory::{Memory, SwapPosition};

fn config() -> GlobalConfig {
    GlobalConfig {
        progress_prefix: "[".to_string(),
        progress_suffix: "]".to_string(),
        progress_full_character: '=',
        progress_empty_character: '=',
        progress_width: 60,
    }
}

fn mount(on: &str, from: &str, total: u64, avail: u64) -> MountInfo {
    MountInfo {
        fs_mounted_on: on.to_string(),
        fs_mounted_from: from.to_string(),
        fs_type: "ext4".to_string(),
        total,
        avail,
    }
}

fn host(mounts: Vec<MountInfo>) -> HostData {
    HostData {
        mounts: Ok(mounts),
        meminfo: Ok(vec![
            ("MemTotal".to_string(), 1000),
            ("MemAvailable".to_string(), 250),
            ("SwapTotal".to_string(), 1000),
            ("SwapFree".to_string(), 1000),
        ]),
    }
}

fn text(line: &Line) -> String {
    match line {
        Line::Text(s) => s.clone(),
        _ => panic!("not a text line"),
    }
}

#[test]
fn empty_configuration_is_an_error() {
    let fs = Filesystems::new(vec![]);
    let r = fs.prepare_or_error(&config(), &Ok(vec![mount("/", "/dev/sda1", 100, 50)]));
    assert!(matches!(r, Err(FilesystemsError::ConfigEmpty)));
    let lines = Component::Filesystems(Filesystems::new(vec![])).print(&config(), None, &host(vec![]), None);
    assert_eq!(lines.len(), 2);
    assert_eq!(
        text(&lines[0]),
        "Filesystem error: Empty configuration for filesystems. Please remove the entire block to disable this component."
    );
    assert_eq!(text(&lines[1]), "");
}

#[test]
fn missing_mount_is_reported_without_touching_other_widgets() {
    let fs = Filesystems::new(vec![("data".to_string(), "/data".to_string())]);
    let h = host(vec![mount("/", "/dev/sda1", 100, 50)]);
    let blocks = print_all(
        vec![Component::Filesystems(fs), Component::Memory(Memory::new(SwapPosition::Omitted))],
        &config(),
        &vec![None, None],
        &h,
        vec![],
    );
    assert_eq!(blocks.len(), 2);
    assert_eq!(blocks[0].len(), 2);
    assert_eq!(text(&blocks[0][0]), "Filesystem error: Could not find mount \"/data\"");
    assert_eq!(blocks[1].len(), 4);
    assert_eq!(text(&blocks[1][0]), "Memory");
}

#[test]
fn unreadable_mount_table_is_an_io_error() {
    let fs = Filesystems::new(vec![("root".to_string(), "/".to_string())]);
    let r = fs.prepare_or_error(&config(), &Err("permission denied".to_string()));
    match r {
        Err(FilesystemsError::IO { message }) => assert_eq!(message, "permission denied"),
        _ => panic!("expected an I/O error"),
    }
}

#[test]
fn later_mount_of_same_point_wins() {
    let fs = Filesystems::new(vec![("root".to_string(), "/".to_string())]);
    let mounts = vec![mount("/", "/dev/old", 100, 50), mount("/", "/dev/new", 100, 10)];
    let (p, _) = fs.prepare_or_error(&config(), &Ok(mounts)).ok().unwrap();
    assert_eq!(p.entries[0].dev, "/dev/new");
    assert_eq!(p.entries[0].used_bytes, 90);
}

#[test]
fn entry_formats_sizes() {
    let e = parse_into_entry("root".to_string(), &mount("/", "/dev/sda1", 1000, 500));
    assert_eq!(e.used, "500 B");
    assert_eq!(e.total, "1.0 KB");
    assert_eq!(e.used_bytes, 500);
    let e = parse_into_entry("odd".to_string(), &mount("/x", "/dev/x", 10, 20));
    assert_eq!(e.used_bytes, 0);
}

#[test]
fn row_pads_each_cell_to_its_column() {
    let cells = vec!["a", "bb", "ccc", "d", "e", "f"].into_iter().map(|s| s.to_string()).collect();
    let row = render_row(cells, &vec![3, 2, 4, 1, 1, 2]);
    assert_eq!(row, "a    bb  ccc   d  e  f ");
}

#[test]
fn row_pads_only_cells_with_a_width() {
    let cells = vec!["a", "bb", "ccc"].into_iter().map(|s| s.to_string()).collect();
    assert_eq!(render_row(cells, &vec![2, 3]), "a   bb ");
    let cells = vec!["a".to_string()];
    assert_eq!(render_row(cells, &vec![3, 4, 5]), "a  ");
    assert_eq!(render_row(vec![], &vec![3]), "");
    let cells = vec!["long".to_string(), "x".to_string()];
    assert_eq!(render_row(cells, &vec![1, 1]), "long  x");
}

#[test]
fn two_filesystems_end_to_end() {
    let fs = Filesystems::new(vec![
        ("root".to_string(), "/".to_string()),
        ("data".to_string(), "/data".to_string()),
    ]);
    let h = host(vec![mount("/", "/dev/sda1", 1000, 500), mount("/data", "/dev/sdb1", 1000, 10)]);
    let (prepared, constraints) = Component::Filesystems(fs).prepare(&config(), &h);
    let sizes = match &prepared {
        Component::PreparedFilesystems(p) => p.column_sizes.clone(),
        _ => panic!("expected a prepared widget"),
    };
    // "Filesystems", "/dev/sda1", "/data", "Type", "Used", "1.0 KB"
    assert_eq!(sizes, vec![11, 9, 5, 4, 5, 6]);
    let min_width = constraints.unwrap().min_width.unwrap();
    assert_eq!(min_width, 11 + 9 + 5 + 4 + 5 + 6 + 4 * 2);
    let lines = prepared.print(&config(), Some(min_width), &h, None);
    assert_eq!(lines.len(), 6);
    assert_eq!(text(&lines[0]), "Filesystems  Device     Mount  Type  Used   Total ");
    assert_eq!(text(&lines[1]), "  root       /dev/sda1  /      ext4  500 B  1.0 KB");
    assert_eq!(text(&lines[3]), "  data       /dev/sdb1  /data  ext4  990 B  1.0 KB");
    for k in [0, 1, 3] {
        assert_eq!(text(&lines[k]).chars().count(), min_width + 2);
    }
    let bar_width = min_width - 2;
    match (&lines[2], &lines[4]) {
        (Line::Bars(a), Line::Bars(b)) => {
            assert_eq!(a.len(), 1);
            assert_eq!(b.len(), 1);
            assert_eq!(a[0].tier, Tier::Green);
            assert_eq!(a[0].filled, bar_width / 2);
            assert_eq!(b[0].tier, Tier::Red);
            assert_eq!(b[0].filled, 46);
            assert_eq!(a[0].filled + a[0].empty, bar_width);
            assert_eq!(b[0].filled + b[0].empty, bar_width);
        }
        _ => panic!("expected bar lines"),
    }
    assert_eq!(text(&lines[5]), "");
}
