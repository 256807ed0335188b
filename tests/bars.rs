use motd_widgets::bar::{bar_text, filled_cells, tier_of, Bar, Tier};
use motd_widgets::config::GlobalConfig;

#[test]
fn filled_and_empty_add_up_to_width() {
    for width in [0usize, 1, 7, 10, 58] {
        for (used, total) in [(0u64, 10u64), (1, 3), (5, 10), (9, 10), (10, 10), (0, 0)] {
            let bar = Bar::new(used, total, width);
            assert_eq!(bar.filled + bar.empty, width);
            assert!(bar.filled <= width);
        }
    }
}

#[test]
fn filled_cells_round_half_up() {
    assert_eq!(filled_cells(1, 3, 10), 3);
    assert_eq!(filled_cells(2, 3, 10), 7);
    assert_eq!(filled_cells(1, 2, 5), 3);
    assert_eq!(filled_cells(1, 4, 2), 1);
    assert_eq!(filled_cells(10, 10, 58), 58);
    assert_eq!(filled_cells(0, 10, 58), 0);
}

#[test]
fn empty_resource_has_no_filled_cells() {
    let bar = Bar::new(0, 0, 20);
    assert_eq!(bar.filled, 0);
    assert_eq!(bar.empty, 20);
    assert_eq!(bar.tier, Tier::Green);
}

#[test]
fn large_values_do_not_overflow() {
    assert_eq!(filled_cells(u64::MAX, u64::MAX, usize::MAX), usize::MAX);
    assert_eq!(filled_cells(u64::MAX / 2, u64::MAX, 100), 50);
    assert_eq!(tier_of(u64::MAX, u64::MAX), Tier::Red);
}

#[test]
fn color_tier_boundaries() {
    assert_eq!(tier_of(0, 100), Tier::Green);
    assert_eq!(tier_of(75, 100), Tier::Green);
    assert_eq!(tier_of(76, 100), Tier::Yellow);
    assert_eq!(tier_of(95, 100), Tier::Yellow);
    assert_eq!(tier_of(96, 100), Tier::Red);
    assert_eq!(tier_of(100, 100), Tier::Red);
    assert_eq!(tier_of(751, 1000), Tier::Yellow);
}

#[test]
fn bar_text_draws_each_cell() {
    let config = GlobalConfig {
        progress_prefix: "[".to_string(),
        progress_suffix: "]".to_string(),
        progress_full_character: '#',
        progress_empty_character: '.',
        progress_width: 20,
    };
    let t = bar_text(&config, &Bar::new(3, 10, 10));
    assert_eq!(t.lead, "  [");
    assert_eq!(t.full, "###");
    assert_eq!(t.empty, ".......");
    assert_eq!(t.suffix, "]");
    let t = bar_text(&config, &Bar::new(0, 0, 0));
    assert_eq!(t.full, "");
    assert_eq!(t.empty, "");
}
