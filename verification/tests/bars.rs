use nu_plugin_audio::bar::{bar_widths, render_bar};
use nu_plugin_audio::icons::IconSet;

#[test]
fn ascii_bar_rounds_to_nearest_cell() {
    assert_eq!(render_bar(1, 2, 10, IconSet::Ascii), "[#####.....]");
    assert_eq!(render_bar(1, 2, 9, IconSet::Ascii), "[#####....]");
    assert_eq!(render_bar(1, 3, 10, IconSet::Ascii), "[###.......]");
    assert_eq!(render_bar(0, 5, 4, IconSet::Ascii), "[....]");
    assert_eq!(render_bar(5, 5, 4, IconSet::Ascii), "[####]");
}

#[test]
fn bar_ratio_is_clamped() {
    assert_eq!(render_bar(9, 5, 4, IconSet::Ascii), "[####]");
    assert_eq!(render_bar(3, 0, 4, IconSet::Ascii), "[....]");
    assert_eq!(render_bar(3, 0, 4, IconSet::NerdFont), "[░░░░]");
}

#[test]
fn unicode_bar_uses_blocks() {
    assert_eq!(render_bar(1, 2, 4, IconSet::Unicode), "[██░░]");
}

#[test]
fn nerd_font_bar_draws_partial_block() {
    // 0.5 of 3 cells: one full cell, then half a cell (4 eighths)
    assert_eq!(render_bar(1, 2, 3, IconSet::NerdFont), "[█▌░]");
    // 0.3 of 10 cells: three full cells and nothing left over
    assert_eq!(render_bar(3, 10, 10, IconSet::NerdFont), "[███░░░░░░░]");
    // 1/16 of one cell: half an eighth is not drawn
    assert_eq!(render_bar(1, 16, 1, IconSet::NerdFont), "[░]");
    // 7/8 of one cell
    assert_eq!(render_bar(7, 8, 1, IconSet::NerdFont), "[▉]");
    assert_eq!(render_bar(2, 2, 3, IconSet::NerdFont), "[███]");
}

#[test]
fn zero_width_bar() {
    assert_eq!(render_bar(1, 2, 0, IconSet::NerdFont), "[]");
}

#[test]
fn bar_length_law_examples() {
    for width in 0..20usize {
        for num in 0..12u64 {
            let s = render_bar(num, 10, width, IconSet::NerdFont);
            assert_eq!(s.chars().count(), width + 2);
        }
    }
}

#[test]
fn bar_split_examples() {
    assert_eq!(bar_widths(100), (60, 20));
    assert_eq!(bar_widths(20), (15, 5));
    assert_eq!(bar_widths(14), (9, 5));
    assert_eq!(bar_widths(10), (5, 5));
    assert_eq!(bar_widths(5), (0, 5));
    // fewer columns than the narrowest volume bar: the volume bar shrinks too
    assert_eq!(bar_widths(0), (0, 0));
    assert_eq!(bar_widths(3), (0, 3));
    assert_eq!(bar_widths(4), (0, 4));
}

#[test]
fn bars_never_exceed_available_columns() {
    for available in 0..400usize {
        let (bar, vol) = bar_widths(available);
        assert!(bar + vol <= available);
        assert!(bar <= 60);
        assert!(available < 5 || vol >= 5);
    }
}

#[test]
fn empty_cells_never_grow_with_ratio() {
    for icons in [IconSet::NerdFont, IconSet::Unicode, IconSet::Ascii] {
        let empty = icons.empty();
        let mut last = usize::MAX;
        for num in 0..=40u64 {
            let s = render_bar(num, 40, 7, icons);
            let n = s.matches(empty).count();
            assert!(n <= last);
            last = n;
        }
    }
}

#[test]
fn clamped_ratio_draws_the_same_bar() {
    for icons in [IconSet::NerdFont, IconSet::Unicode, IconSet::Ascii] {
        assert_eq!(render_bar(17, 8, 6, icons), render_bar(8, 8, 6, icons));
        assert_eq!(render_bar(8, 8, 6, icons), format!("[{}]", icons.fill().repeat(6)));
        assert_eq!(render_bar(0, 8, 6, icons), format!("[{}]", icons.empty().repeat(6)));
        assert_eq!(render_bar(5, 0, 6, icons), format!("[{}]", icons.empty().repeat(6)));
    }
}

#[test]
fn fill_grows_across_denominators() {
    // 1/3 <= 2/5 <= 3/7 <= 1/2: filled cells never shrink, empty ones never grow
    let ratios = [(1u64, 3u64), (2, 5), (3, 7), (1, 2), (5, 9), (2, 2)];
    for icons in [IconSet::NerdFont, IconSet::Unicode, IconSet::Ascii] {
        let mut last_fill = 0;
        let mut last_empty = usize::MAX;
        for (n, d) in ratios {
            let s = render_bar(n, d, 11, icons);
            let fill = s.matches(icons.fill()).count();
            let empty = s.matches(icons.empty()).count();
            assert!(fill >= last_fill);
            assert!(empty <= last_empty);
            last_fill = fill;
            last_empty = empty;
        }
    }
}
