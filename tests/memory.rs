use motd_widgets::bar::Tier;
use motd_widgets::config::GlobalConfig;
use motd_widgets::line::Line;
use motd_widgets::memory::{Memory, MemoryError, MemoryUsage, SwapPosition};

fn config() -> GlobalConfig {
    GlobalConfig {
        progress_prefix: "[".to_string(),
        progress_suffix: "]".to_string(),
        progress_full_character: '=',
        progress_empty_character: '-',
        progress_width: 42,
    }
}

fn meminfo() -> Result<Vec<(String, u64)>, MemoryError> {
    Ok(vec![
        ("MemTotal".to_string(), 1000),
        ("MemAvailable".to_string(), 250),
        ("SwapTotal".to_string(), 1000),
        ("SwapFree".to_string(), 1000),
    ])
}

fn text(line: &Line) -> String {
    match line {
        Line::Text(s) => s.clone(),
        _ => panic!("not a text line"),
    }
}

#[test]
fn swap_beside_gives_two_equal_bars_on_one_line() {
    let lines = Memory::new(SwapPosition::Beside)
        .print_or_error(&config(), Some(40), &meminfo())
        .ok()
        .unwrap();
    assert_eq!(lines.len(), 3);
    assert_eq!(text(&lines[0]), "Memory");
    assert_eq!(text(&lines[1]), "  RAM: 750 B / 1.0 KB  Swap: 0 B / 1.0 KB");
    // (40 - 1 - 1) / 2 - 2
    let bar_width = 17;
    match &lines[2] {
        Line::Bars(bars) => {
            assert_eq!(bars.len(), 2);
            assert_eq!(bars[0].filled + bars[0].empty, bar_width);
            assert_eq!(bars[1].filled + bars[1].empty, bar_width);
            assert_eq!(bars[0].filled, 13);
            assert_eq!(bars[0].tier, Tier::Green);
            assert_eq!(bars[1].filled, 0);
        }
        _ => panic!("expected bars"),
    }
}

#[test]
fn swap_below_gives_two_lines_each() {
    let lines = Memory::new(SwapPosition::Below)
        .print_or_error(&config(), None, &meminfo())
        .ok()
        .unwrap();
    assert_eq!(lines.len(), 5);
    assert_eq!(text(&lines[1]), "  RAM: 750 B / 1.0 KB");
    assert_eq!(text(&lines[3]), "  Swap: 0 B / 1.0 KB");
    // default width 42 - 2, less the prefix and suffix
    match &lines[4] {
        Line::Bars(bars) => assert_eq!(bars[0].filled + bars[0].empty, 38),
        _ => panic!("expected bars"),
    }
}

#[test]
fn swap_omitted_needs_no_swap_figures() {
    let info: Result<Vec<(String, u64)>, MemoryError> =
        Ok(vec![("MemTotal".to_string(), 100), ("MemAvailable".to_string(), 4)]);
    let lines = Memory::new(SwapPosition::Omitted)
        .print_or_error(&config(), Some(12), &info)
        .ok()
        .unwrap();
    assert_eq!(lines.len(), 3);
    match &lines[2] {
        Line::Bars(bars) => {
            assert_eq!(bars.len(), 1);
            assert_eq!(bars[0].filled, 10);
            assert_eq!(bars[0].empty, 0);
            assert_eq!(bars[0].tier, Tier::Red);
        }
        _ => panic!("expected bars"),
    }
}

#[test]
fn missing_quantity_is_named() {
    let info: Result<Vec<(String, u64)>, MemoryError> =
        Ok(vec![("MemTotal".to_string(), 100), ("MemAvailable".to_string(), 4)]);
    let r = Memory::new(SwapPosition::Below).print_or_error(&config(), None, &info);
    match r {
        Err(e) => {
            assert!(matches!(&e, MemoryError::MemoryNotFound { quantity } if quantity == "SwapTotal"));
            assert_eq!(e.message(), "Could not find memory quantity \"SwapTotal\"");
        }
        Ok(_) => panic!("expected an error"),
    }
    let info: Result<Vec<(String, u64)>, MemoryError> = Ok(vec![("MemTotal".to_string(), 100)]);
    let r = MemoryUsage::get_by_name("RAM".to_string(), &info, &"MemAvailable".to_string(), &"MemTotal".to_string());
    assert!(matches!(r, Err(MemoryError::MemoryNotFound { quantity }) if quantity == "MemAvailable"));
}

#[test]
fn unreadable_figures_are_an_io_error() {
    let failure = Err(MemoryError::IO { message: "no /proc".to_string() });
    let r = Memory::new(SwapPosition::Omitted).print_or_error(&config(), None, &failure);
    assert!(matches!(r, Err(MemoryError::IO { message }) if message == "no /proc"));
}

#[test]
fn unsupported_platform_is_reported() {
    let r = Memory::new(SwapPosition::Below).print_or_error(&config(), None, &Err(MemoryError::UnsupportedPlatform));
    match r {
        Err(e) => {
            assert!(matches!(e, MemoryError::UnsupportedPlatform));
            assert_eq!(e.message(), "Getting memory information is not supported on the current platform");
        }
        Ok(_) => panic!("expected an error"),
    }
}

#[test]
fn narrow_width_degrades_without_panicking() {
    let lines = Memory::new(SwapPosition::Beside)
        .print_or_error(&config(), Some(1), &meminfo())
        .ok()
        .unwrap();
    match &lines[2] {
        Line::Bars(bars) => assert_eq!(bars[0].filled + bars[0].empty, 0),
        _ => panic!("expected bars"),
    }
}
