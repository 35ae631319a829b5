use weathr::render::{
    Cell, Color, ColorSupport, TerminalCapabilities, TerminalOp, TerminalRenderer,
};

fn caps(color_support: ColorSupport) -> TerminalCapabilities {
    TerminalCapabilities {
        color_support,
        is_tty: true,
    }
}

fn grid(width: u16, height: u16) -> TerminalRenderer {
    TerminalRenderer::with_size(width, height, caps(ColorSupport::TrueColor))
}

fn prints(ops: &[TerminalOp]) -> usize {
    ops.iter()
        .filter(|op| matches!(op, TerminalOp::Print(_)))
        .count()
}

#[test]
fn test_adjust_color_none() {
    let caps = TerminalCapabilities {
        color_support: ColorSupport::NoColor,
        is_tty: true,
    };
    assert_eq!(caps.adjust_color(Color::Red), Color::Reset);
    assert_eq!(
        caps.adjust_color(Color::Rgb { r: 255, g: 0, b: 0 }),
        Color::Reset
    );
}

#[test]
fn test_adjust_color_basic() {
    let caps = TerminalCapabilities {
        color_support: ColorSupport::Basic,
        is_tty: true,
    };
    assert_eq!(caps.adjust_color(Color::Red), Color::Red);
    assert_eq!(
        caps.adjust_color(Color::Rgb { r: 255, g: 0, b: 0 }),
        Color::White
    );
}

#[test]
fn test_adjust_color_ansi256() {
    let caps = TerminalCapabilities {
        color_support: ColorSupport::Ansi256,
        is_tty: true,
    };
    assert_eq!(caps.adjust_color(Color::Red), Color::Red);
    let rgb = Color::Rgb { r: 255, g: 0, b: 0 };
    assert_eq!(caps.adjust_color(rgb), rgb);
}

#[test]
fn test_adjust_color_truecolor() {
    let caps = TerminalCapabilities {
        color_support: ColorSupport::TrueColor,
        is_tty: true,
    };
    assert_eq!(caps.adjust_color(Color::Red), Color::Red);
    let rgb = Color::Rgb { r: 255, g: 0, b: 0 };
    assert_eq!(caps.adjust_color(rgb), rgb);
}

#[test]
fn test_adjust_color_never_passes_rgb_without_support() {
    for r in [0u8, 1, 127, 255] {
        for g in [0u8, 200] {
            let rgb = Color::Rgb { r, g, b: 9 };
            assert_eq!(caps(ColorSupport::NoColor).adjust_color(rgb), Color::Reset);
            assert_eq!(caps(ColorSupport::Basic).adjust_color(rgb), Color::White);
        }
    }
    assert_eq!(
        caps(ColorSupport::Basic).adjust_color(Color::AnsiValue(42)),
        Color::AnsiValue(42)
    );
    assert_eq!(
        caps(ColorSupport::NoColor).adjust_color(Color::AnsiValue(42)),
        Color::Reset
    );
}

#[test]
fn test_detect_follows_the_rules_in_order() {
    let detect = TerminalCapabilities::detect;
    assert_eq!(
        detect(true, Some("xterm-256color"), Some("truecolor"), true).color_support,
        ColorSupport::NoColor
    );
    assert_eq!(
        detect(false, Some("dumb"), Some("truecolor"), true).color_support,
        ColorSupport::NoColor
    );
    assert_eq!(
        detect(false, Some("xterm-256color"), Some("truecolor"), false).color_support,
        ColorSupport::NoColor
    );
    assert_eq!(
        detect(false, Some("xterm"), Some("truecolor"), true).color_support,
        ColorSupport::TrueColor
    );
    assert_eq!(
        detect(false, None, Some("24bit"), true).color_support,
        ColorSupport::TrueColor
    );
    assert_eq!(
        detect(false, Some("xterm-256color"), Some("yes"), true).color_support,
        ColorSupport::Ansi256
    );
    assert_eq!(
        detect(false, Some("screen.256color-bce"), None, true).color_support,
        ColorSupport::Ansi256
    );
    assert_eq!(
        detect(false, Some("xterm"), None, true).color_support,
        ColorSupport::Basic
    );
    assert_eq!(
        detect(false, Some("256colo"), None, true).color_support,
        ColorSupport::Basic
    );
    assert_eq!(
        detect(false, None, None, true).color_support,
        ColorSupport::Basic
    );
    assert!(detect(false, None, None, true).is_tty);
    assert!(!detect(false, None, None, false).is_tty);
}

#[test]
fn test_single_put_gives_single_write() {
    let mut g = grid(100, 30);
    g.clear();
    g.render_char(5, 5, 'X', Color::White);
    let ops = g.flush();
    assert_eq!(
        ops,
        vec![
            TerminalOp::MoveTo(5, 5),
            TerminalOp::SetForegroundColor(Color::White),
            TerminalOp::Print('X'),
            TerminalOp::ResetColor,
        ]
    );
    let again = g.flush();
    assert_eq!(again, Vec::<TerminalOp>::new());
}

#[test]
fn test_flush_writes_each_changed_cell_once() {
    let mut g = grid(80, 24);
    let places: [(u16, u16); 5] = [(0, 0), (79, 0), (0, 1), (40, 12), (79, 23)];
    for (x, y) in places {
        g.render_char(x, y, '#', Color::Green);
    }
    let ops = g.flush();
    assert_eq!(prints(&ops), places.len());
    // the same picture once more: nothing differs from what is shown
    g.clear();
    for (x, y) in places {
        g.render_char(x, y, '#', Color::Green);
    }
    assert_eq!(g.flush(), Vec::<TerminalOp>::new());
    // one of them goes, one changes colour, one is new
    g.clear();
    g.render_char(0, 0, '#', Color::Green);
    g.render_char(79, 0, '#', Color::Red);
    g.render_char(0, 1, '#', Color::Green);
    g.render_char(79, 23, '#', Color::Green);
    g.render_char(1, 1, '@', Color::Green);
    let ops = g.flush();
    assert_eq!(
        ops,
        vec![
            TerminalOp::MoveTo(79, 0),
            TerminalOp::SetForegroundColor(Color::Red),
            TerminalOp::Print('#'),
            TerminalOp::MoveTo(1, 1),
            TerminalOp::SetForegroundColor(Color::Green),
            TerminalOp::Print('@'),
            TerminalOp::MoveTo(40, 12),
            TerminalOp::SetForegroundColor(Color::Reset),
            TerminalOp::Print(' '),
        ]
    );
}

#[test]
fn test_flush_skips_moves_between_neighbours() {
    let mut g = grid(80, 24);
    g.render_line_colored(10, 3, "abc", Color::Cyan);
    let ops = g.flush();
    assert_eq!(
        ops,
        vec![
            TerminalOp::MoveTo(10, 3),
            TerminalOp::SetForegroundColor(Color::Cyan),
            TerminalOp::Print('a'),
            TerminalOp::Print('b'),
            TerminalOp::Print('c'),
            TerminalOp::ResetColor,
        ]
    );
}

#[test]
fn test_flush_moves_at_the_end_of_a_line() {
    let mut g = grid(70, 20);
    g.render_char(69, 4, 'a', Color::Reset);
    g.render_char(0, 5, 'b', Color::Reset);
    assert_eq!(
        g.flush(),
        vec![
            TerminalOp::MoveTo(69, 4),
            TerminalOp::Print('a'),
            TerminalOp::MoveTo(0, 5),
            TerminalOp::Print('b'),
        ]
    );
}

#[test]
fn test_put_off_the_grid_is_dropped() {
    let mut g = grid(80, 24);
    g.render_char(80, 0, 'X', Color::White);
    g.render_char(0, 24, 'X', Color::White);
    g.render_char(65535, 65535, 'X', Color::White);
    g.put(-1, 3, 'X', Color::White);
    g.put(3, -1, 'X', Color::White);
    g.put(i64::MAX, i64::MIN, 'X', Color::White);
    assert_eq!(g.flush(), Vec::<TerminalOp>::new());
}

#[test]
fn test_later_put_covers_earlier() {
    let mut g = grid(80, 24);
    g.render_char(7, 7, 'a', Color::Red);
    g.render_char(7, 7, 'b', Color::Blue);
    assert_eq!(
        g.flush(),
        vec![
            TerminalOp::MoveTo(7, 7),
            TerminalOp::SetForegroundColor(Color::Blue),
            TerminalOp::Print('b'),
            TerminalOp::ResetColor,
        ]
    );
}

#[test]
fn test_put_adapts_colour_to_the_terminal() {
    let mut g = TerminalRenderer::with_size(80, 24, caps(ColorSupport::Basic));
    g.render_char(1, 1, 'x', Color::Rgb { r: 1, g: 2, b: 3 });
    g.render_char(2, 1, 'y', Color::Red);
    assert_eq!(
        g.flush(),
        vec![
            TerminalOp::MoveTo(1, 1),
            TerminalOp::SetForegroundColor(Color::White),
            TerminalOp::Print('x'),
            TerminalOp::SetForegroundColor(Color::Red),
            TerminalOp::Print('y'),
            TerminalOp::ResetColor,
        ]
    );
    let mut plain = TerminalRenderer::with_size(80, 24, caps(ColorSupport::NoColor));
    plain.render_char(1, 1, 'x', Color::Rgb { r: 1, g: 2, b: 3 });
    assert_eq!(
        plain.flush(),
        vec![TerminalOp::MoveTo(1, 1), TerminalOp::Print('x')]
    );
}

#[test]
fn test_resize_blanks_and_clears_once() {
    let mut g = grid(80, 24);
    g.render_char(1, 1, 'x', Color::Reset);
    g.flush();
    g.manual_resize(80, 24);
    assert_eq!(g.flush(), Vec::<TerminalOp>::new());
    g.render_char(1, 1, 'x', Color::Reset);
    g.manual_resize(90, 30);
    assert_eq!(g.get_size(), (90, 30));
    g.render_char(89, 29, 'z', Color::Reset);
    assert_eq!(
        g.flush(),
        vec![
            TerminalOp::ClearAll,
            TerminalOp::MoveTo(89, 29),
            TerminalOp::Print('z'),
        ]
    );
    assert_eq!(g.flush(), Vec::<TerminalOp>::new());
}

#[test]
fn test_flash_recolours_and_keeps_characters() {
    let mut g = grid(70, 20);
    g.render_char(0, 0, 'a', Color::Red);
    g.flush();
    g.flash_screen();
    let ops = g.flush();
    // every cell changes colour: the blanks too
    assert_eq!(prints(&ops), 70 * 20);
    assert_eq!(ops[0], TerminalOp::MoveTo(0, 0));
    assert_eq!(ops[1], TerminalOp::SetForegroundColor(Color::White));
    assert_eq!(ops[2], TerminalOp::Print('a'));
    assert_eq!(ops[3], TerminalOp::Print(' '));
    assert_eq!(*ops.last().unwrap(), TerminalOp::ResetColor);
}

#[test]
fn test_centered_lines() {
    let mut g = grid(80, 24);
    let lines = vec!["ab".to_string(), "abcd".to_string()];
    g.render_centered_colored(&lines, 2, Color::Yellow);
    assert_eq!(
        g.flush(),
        vec![
            TerminalOp::MoveTo(38, 2),
            TerminalOp::SetForegroundColor(Color::Yellow),
            TerminalOp::Print('a'),
            TerminalOp::Print('b'),
            TerminalOp::MoveTo(38, 3),
            TerminalOp::Print('a'),
            TerminalOp::Print('b'),
            TerminalOp::Print('c'),
            TerminalOp::Print('d'),
            TerminalOp::ResetColor,
        ]
    );
}

#[test]
fn test_line_that_runs_off_the_grid_is_cut() {
    let mut g = grid(70, 20);
    g.render_line_colored(68, 19, "wxyz", Color::Reset);
    g.render_line_colored(0, 20, "below", Color::Reset);
    assert_eq!(
        g.flush(),
        vec![
            TerminalOp::MoveTo(68, 19),
            TerminalOp::Print('w'),
            TerminalOp::Print('x'),
        ]
    );
}

#[test]
fn test_default_cell_is_blank() {
    assert_eq!(
        Cell::default(),
        Cell {
            character: ' ',
            color: Color::Reset
        }
    );
}

#[test]
fn test_a_frame_counts_as_shown_only_when_marked() {
    let mut g = TerminalRenderer::with_size(
        100,
        30,
        TerminalCapabilities {
            color_support: ColorSupport::TrueColor,
            is_tty: true,
        },
    );
    g.render_char(5, 5, 'X', Color::White);
    let first = g.pending();
    assert_eq!(
        first,
        vec![
            TerminalOp::MoveTo(5, 5),
            TerminalOp::SetForegroundColor(Color::White),
            TerminalOp::Print('X'),
            TerminalOp::ResetColor,
        ]
    );
    // nothing was written: the same operations are still owed
    assert_eq!(g.pending(), first);
    assert_eq!(g.cell_at(5, 5).unwrap().character, 'X');
    g.mark_shown();
    assert!(g.pending().is_empty());
    assert_eq!(g.cell_at(5, 5).unwrap().character, 'X');
    // the two steps together are a flush
    g.render_char(6, 5, 'Y', Color::Reset);
    let owed = g.pending();
    assert_eq!(g.flush(), owed);
    assert!(g.flush().is_empty());
    // an erase that is owed stays owed until the frame is marked
    g.manual_resize(80, 24);
    assert_eq!(g.pending(), vec![TerminalOp::ClearAll]);
    assert_eq!(g.pending(), vec![TerminalOp::ClearAll]);
    g.mark_shown();
    assert!(g.pending().is_empty());
}
