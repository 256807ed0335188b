use motd_widgets::banner::{Banner, BannerError};
use motd_widgets::component::{Component, HostData};
use motd_widgets::config::GlobalConfig;
use motd_widgets::line::{BannerColor, Constraints, Line};
use motd_widgets::dashboard::{assign_widths, prepare_all};
use motd_widgets::filesystem::{Filesystems, MountInfo};

fn config() -> GlobalConfig {
    GlobalConfig {
        progress_prefix: String::new(),
        progress_suffix: String::new(),
        progress_full_character: '#',
        progress_empty_character: '.',
        progress_width: 30,
    }
}

fn host() -> HostData {
    HostData { mounts: Ok(vec![]), meminfo: Ok(vec![]) }
}

#[test]
fn banner_trims_trailing_whitespace() {
    let b = Banner::new(BannerColor::Cyan, "echo hi".to_string());
    let lines = b.print_or_error(Ok("  hello \n\n".to_string())).ok().unwrap();
    assert_eq!(lines.len(), 1);
    match &lines[0] {
        Line::Colored(c, s) => {
            assert_eq!(*c, BannerColor::Cyan);
            assert_eq!(s, "  hello");
        }
        _ => panic!("expected a coloured line"),
    }
}

#[test]
fn banner_failure_is_one_line() {
    let c = Component::Banner(Banner::new(BannerColor::Red, "false".to_string()));
    let err = BannerError::BetterCommandError { message: "exit status 1".to_string() };
    let lines = c.print(&config(), None, &host(), Some(Err(err)));
    assert_eq!(lines.len(), 2);
    match (&lines[0], &lines[1]) {
        (Line::Text(a), Line::Text(b)) => {
            assert_eq!(a, "Banner error: exit status 1");
            assert_eq!(b, "");
        }
        _ => panic!("expected text lines"),
    }
}

#[test]
fn banner_asks_for_no_width() {
    let c = Component::Banner(Banner::new(BannerColor::Red, "true".to_string()));
    let (next, asked) = c.prepare(&config(), &host());
    assert!(asked.is_none());
    assert!(matches!(next, Component::Banner(_)));
}

#[test]
fn widths_follow_the_widest_request() {
    let cs = vec![
        None,
        Some(Constraints { min_width: Some(30) }),
        Some(Constraints { min_width: None }),
        Some(Constraints { min_width: Some(52) }),
    ];
    assert_eq!(assign_widths(&cs), vec![None, Some(52), None, Some(52)]);
    assert_eq!(assign_widths(&vec![]), vec![]);
}

#[test]
fn failed_preparation_keeps_the_widget() {
    let fs = Filesystems::new(vec![("data".to_string(), "/data".to_string())]);
    let h = HostData {
        mounts: Ok(vec![MountInfo {
            fs_mounted_on: "/".to_string(),
            fs_mounted_from: "/dev/sda1".to_string(),
            fs_type: "ext4".to_string(),
            total: 10,
            avail: 5,
        }]),
        meminfo: Ok(vec![]),
    };
    let (next, asked) = prepare_all(vec![Component::Filesystems(fs)], &config(), &h);
    assert_eq!(next.len(), 1);
    assert!(matches!(next[0], Component::Filesystems(_)));
    assert_eq!(asked, vec![Some(Constraints { min_width: None })]);
}
