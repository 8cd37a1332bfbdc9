use disco::gradient::linear_gradient;
use disco::gradient::oscillate_dist;
use disco::gradient::Dist;
use disco::paint::ColorFormat;
use disco::paint::LogPainter;
use disco::theme;
use disco::Level;
use disco::Rgb;
use disco::RgbRange;
use unicode_segmentation::UnicodeSegmentation;

// helpers

/// Assert that two values are equal within some range, `eps`
fn assert_eq_with_eps(a: f64, b: f64, eps: f64) {
    if (a - b).abs() > eps {
        panic!("{} and {} were not equal", a, b);
    }
}

/// The oscillating distance as a floating-point value, for comparison
/// against the expected positions.
fn osc(x: usize, n: usize) -> f64 {
    let d = oscillate_dist(x, n);
    d.num as f64 / d.den as f64
}

/// Compare the values in two Rgb structs within some range (+/- eps).
fn assert_rgb_eq(lhs: Rgb, rhs: Rgb, eps: Option<u8>) {
    let eps = f64::from(eps.unwrap_or(1));

    assert_eq_with_eps(f64::from(lhs.r), f64::from(rhs.r), eps);
    assert_eq_with_eps(f64::from(lhs.g), f64::from(rhs.g), eps);
    assert_eq_with_eps(f64::from(lhs.b), f64::from(rhs.b), eps);
}

/// Assert that `f` gives a uniquely colored output for a string
/// logged at each of the possible log levels
fn assert_logs_colored_by_level(f: &dyn Fn(&LogPainter<theme::Simple>, String, Level) -> String) {
    // create a painter
    let painter = LogPainter::new(theme::Simple {}, Some(ColorFormat::Solid));

    // run `f` on `msg` with each level to make sure that
    // no two levels give the same colored output
    let msg = "foo".to_string();
    let lines = [
        f(&painter, msg.clone(), Level::Trace),
        f(&painter, msg.clone(), Level::Debug),
        f(&painter, msg.clone(), Level::Info),
        f(&painter, msg.clone(), Level::Warn),
        f(&painter, msg.clone(), Level::Error),
    ];

    // check that each colored line is unique
    for (i, line) in lines.iter().enumerate() {
        for line1 in lines.iter().skip(i + 1) {
            if line == line1 {
                panic!(
                    "\"{}\" and \"{}\" had different levels but generated the same formatted line",
                    line, line1
                );
            }
        }
    }
}

// tests

#[test]
fn linear_gradient_calculates_correct_color() {
    let r = RgbRange {
        start: Rgb { r: 0, g: 0, b: 0 },
        end: Rgb { r: 255, g: 255, b: 255 },
    };

    assert_rgb_eq(
        linear_gradient(&r, Dist { num: 0, den: 1 }),
        Rgb { r: 0, g: 0, b: 0 },
        None,
    );
    assert_rgb_eq(
        linear_gradient(&r, Dist { num: 1, den: 4 }),
        Rgb { r: 64, g: 64, b: 64 },
        None,
    );
    assert_rgb_eq(
        linear_gradient(&r, Dist { num: 1, den: 2 }),
        Rgb { r: 128, g: 128, b: 128 },
        None,
    );
    assert_rgb_eq(
        linear_gradient(&r, Dist { num: 3, den: 4 }),
        Rgb { r: 190, g: 190, b: 190 },
        None,
    );
    assert_rgb_eq(
        linear_gradient(&r, Dist { num: 1, den: 1 }),
        Rgb { r: 255, g: 255, b: 255 },
        None,
    );
}

#[test]
fn linear_gradient_clamps_dist() {
    let r = RgbRange {
        start: Rgb { r: 0, g: 0, b: 0 },
        end: Rgb { r: 255, g: 255, b: 255 },
    };

    let expected = Rgb { r: 0, g: 0, b: 0 };
    assert_rgb_eq(linear_gradient(&r, Dist { num: -1, den: 1 }), expected, None);

    let expected = Rgb { r: 255, g: 255, b: 255 };
    assert_rgb_eq(linear_gradient(&r, Dist { num: 100, den: 1 }), expected, None);
}

#[test]
fn oscillate_dist_oscillates() {
    assert_eq_with_eps(osc(0, 255), 0.0, 1e-2);
    assert_eq_with_eps(osc(128, 255), 0.5, 1e-2);
    assert_eq_with_eps(osc(255, 255), 1.0, 1e-2);
    assert_eq_with_eps(osc(256, 255), 1.0 - (1.0 / 255.0), 1e-2);
    assert_eq_with_eps(osc(383, 255), 0.5, 1e-2);
    assert_eq_with_eps(osc(510, 255), 0.0, 1e-2);
    assert_eq_with_eps(osc(638, 255), 0.5, 1e-2);
    assert_eq_with_eps(osc(765, 255), 1.0, 1e-2);
    assert_eq_with_eps(osc(usize::MAX, 255), osc(usize::MAX - 255, 255), 1e-2);
    assert_eq_with_eps(osc(12, usize::MAX), 1.0, 1e-2);
    assert_eq_with_eps(osc(257, usize::MAX), 1.0, 1e-2);
    assert_eq_with_eps(osc(usize::MAX, usize::MAX), 1.0, 1e-2);
}

#[test]
fn oscillate_dist_handles_0_n() {
    // this shouldn't panic
    oscillate_dist(0, 0);
}

#[test]
fn paint_solid_colors_by_level() {
    assert_logs_colored_by_level(&LogPainter::paint_solid);
}

#[test]
fn paint_inline_gradient_colors_by_level() {
    let color_fn = |painter: &LogPainter<theme::Simple>, msg: String, level: Level| -> String {
        painter.paint_inline_gradient(msg, level, 20)
    };

    assert_logs_colored_by_level(&color_fn);
}

#[test]
fn paint_multi_line_gradient_colors_by_level() {
    let color_fn = |painter: &LogPainter<theme::Simple>, msg: String, level: Level| -> String {
        painter.paint_multi_line_gradient(msg, level, 20)
    };

    assert_logs_colored_by_level(&color_fn);
}

#[test]
fn paint_fns_handle_empty_msg() {
    let color_format = Some(ColorFormat::Solid);
    let painter = LogPainter::new(theme::Simple {}, color_format);

    // none of these calls should panic with an empty message
    painter.paint_solid("".to_string(), Level::Warn);
    painter.paint_inline_gradient("".to_string(), Level::Warn, 10);
    painter.paint_multi_line_gradient("".to_string(), Level::Warn, 10);
}

#[test]
fn paint_with_none_format_returns_orig() {
    let color_format = None;
    let mut painter = LogPainter::new(theme::Simple {}, color_format);

    // input msg should not be altered by None color format
    let msg = "foo".to_string();
    assert_eq!(painter.paint(msg.clone(), Level::Info), msg);
}

#[test]
fn paint_log_with_inline_gradient_uses_steps_arg() {
    let color_format = Some(ColorFormat::InlineGradient(2));
    let mut painter = LogPainter::new(theme::Simple {}, color_format);
    let msgs = vec![
        "0000000000".to_string(),
        "नमस्तेनमस्तेनमस्तेनमस्तेनमस्ते".to_string(),
    ];

    for msg in msgs {
        let msg_colored = painter.paint(msg.clone(), Level::Info);

        // collect ANSI 24-bit escape sequences to compare color of each grapheme
        let words = msg_colored.unicode_words().collect::<Vec<&str>>();
        let num_words = words.len();
        let graphemes = msg.graphemes(true).collect::<Vec<&str>>().len();
        let escape_seqs = words
            .into_iter()
            .step_by(num_words / graphemes)
            .collect::<Vec<&str>>();

        // check that gradient restarts at index 4 (2 * steps)
        //
        // it restarts at 4 instead of 2 because the gradient is first
        // traversed from start to end, then from end to start, then start to end
        // again, oscillating this way indefinitely
        assert_ne!(escape_seqs[0], escape_seqs[1]);
        assert_eq!(escape_seqs[0], escape_seqs[4]);
        assert_eq!(escape_seqs[1], escape_seqs[5]);
        assert_eq!(escape_seqs[2], escape_seqs[6]);
        assert_eq!(escape_seqs[3], escape_seqs[7]);
    }
}

#[test]
fn paint_log_with_multi_line_gradient_changes_color_within_level() {
    let color_format = Some(ColorFormat::MultiLineGradient(20));
    let mut painter = LogPainter::new(theme::Simple {}, color_format);
    let msg = "foo".to_string();

    // the color should change each time a message is logged,
    // since the multi-line gradient color format should create
    // a color gradient over multiple lines (under each level)
    let mut assert_color_changes_within_level = |level: Level| {
        let mut last_logged = "".to_string();

        for _ in 0..10 {
            let l = painter.paint(msg.clone(), level);
            assert_ne!(last_logged, l);
            last_logged = l;
        }
    };

    assert_color_changes_within_level(Level::Trace);
    assert_color_changes_within_level(Level::Debug);
    assert_color_changes_within_level(Level::Info);
    assert_color_changes_within_level(Level::Warn);
    assert_color_changes_within_level(Level::Error);
}

#[test]
fn paint_log_with_multi_line_gradient_uses_steps_arg() {
    // use multi-line gradient with 2 steps in the linear gradient
    let steps: usize = 2;
    let color_format = Some(ColorFormat::MultiLineGradient(steps));
    let mut painter = LogPainter::new(theme::Simple {}, color_format);
    let msg = "foo".to_string();

    let lines = vec![
        // gradient starts going from start -> end here
        painter.paint(msg.clone(), Level::Info),
        painter.paint(msg.clone(), Level::Info),
        // end -> start
        painter.paint(msg.clone(), Level::Info),
        painter.paint(msg.clone(), Level::Info),
        // gradient should start over here, start -> end
        painter.paint(msg.clone(), Level::Info),
        painter.paint(msg.clone(), Level::Info),
        // end -> start
        painter.paint(msg.clone(), Level::Info),
        painter.paint(msg.clone(), Level::Info),
    ];

    // check that gradient restarts at index 4 (2 * steps)
    //
    // it restarts at 4 instead of 2 because the gradient is first
    // traversed from start to end, then from end to start, then start to end
    // again, oscillating this way indefinitely
    assert_ne!(lines[0], lines[1]);
    assert_eq!(lines[0], lines[4]);
    assert_eq!(lines[1], lines[5]);
    assert_eq!(lines[2], lines[6]);
    assert_eq!(lines[3], lines[7]);
}

#[test]
fn paint_solid_emits_exact_escape_sequence() {
    // Simple theme, Info level: solid color is the range start (70, 140, 10)
    let painter = LogPainter::new(theme::Simple {}, Some(ColorFormat::Solid));
    let line = painter.paint_solid("foo".to_string(), Level::Info);
    assert_eq!(line, "\u{1b}[38;2;70;140;10mfoo\u{1b}[0m");
}

#[test]
fn multi_line_gradient_levels_move_independently() {
    // painting at another level in between must not perturb a level's
    // own gradient position
    let steps: usize = 2;
    let mut painter = LogPainter::new(theme::Simple {}, Some(ColorFormat::MultiLineGradient(steps)));
    let mut reference = LogPainter::new(theme::Simple {}, Some(ColorFormat::MultiLineGradient(steps)));
    let msg = "foo".to_string();

    let mut interleaved = Vec::new();
    for _ in 0..8 {
        interleaved.push(painter.paint(msg.clone(), Level::Info));
        // noise at other levels
        painter.paint(msg.clone(), Level::Warn);
        painter.paint(msg.clone(), Level::Error);
    }

    let mut alone = Vec::new();
    for _ in 0..8 {
        alone.push(reference.paint(msg.clone(), Level::Info));
    }

    assert_eq!(interleaved, alone);
}

#[test]
fn multi_line_gradient_counts_every_painted_line() {
    // many bursts at one level: the counter advances once per painted
    // message, so the color sequence repeats with period 4 * steps
    let steps: usize = 5;
    let mut painter = LogPainter::new(theme::Simple {}, Some(ColorFormat::MultiLineGradient(steps)));
    let msg = "x".to_string();

    let lines: Vec<String> = (0..1000).map(|_| painter.paint(msg.clone(), Level::Debug)).collect();
    for i in 0..1000 - 4 * steps {
        assert_eq!(lines[i], lines[i + 4 * steps]);
    }
    assert_ne!(lines[0], lines[1]);
}

#[test]
fn inline_gradient_handles_empty_and_single() {
    let painter = LogPainter::new(theme::Spectral {}, Some(ColorFormat::InlineGradient(3)));

    // empty input yields empty output without error
    assert_eq!(painter.paint_inline_gradient("".to_string(), Level::Info, 3), "");

    // a single grapheme is colored at the range's start color
    let one = painter.paint_inline_gradient("a".to_string(), Level::Info, 3);
    // Spectral theme, Info level: range starts at (10, 144, 144)
    assert_eq!(one, "\u{1b}[38;2;10;144;144ma\u{1b}[0m");
}

#[test]
fn oscillate_dist_steps_zero_acts_as_one() {
    // a half-period of 0 is treated as 1: positions alternate 0, 1, 0, 1
    assert_eq!(osc(0, 0), 0.0);
    assert_eq!(osc(1, 0), 1.0);
    assert_eq!(osc(2, 0), 0.0);
    assert_eq!(osc(3, 0), 1.0);
}

#[test]
fn oscillate_dist_ramps_linearly() {
    // up the first half-period the numerator is the counter itself,
    // down the second it falls back linearly
    for x in 0..=10 {
        let d = oscillate_dist(x, 10);
        assert_eq!(d.num, x as i128);
        assert_eq!(d.den, 10);
    }
    for x in 10..=20 {
        let d = oscillate_dist(x, 10);
        assert_eq!(d.num, (20 - x) as i128);
        assert_eq!(d.den, 10);
    }
}

#[test]
fn linear_gradient_exact_endpoints_and_midpoint() {
    let r = RgbRange {
        start: Rgb { r: 10, g: 250, b: 0 },
        end: Rgb { r: 20, g: 0, b: 255 },
    };

    // dist 0 is exactly the start, dist 1 exactly the end
    assert_eq!(linear_gradient(&r, Dist { num: 0, den: 7 }), r.start);
    assert_eq!(linear_gradient(&r, Dist { num: 7, den: 7 }), r.end);

    // dist 1/2 is the channel-wise midpoint, truncated
    let mid = linear_gradient(&r, Dist { num: 1, den: 2 });
    assert_eq!(mid, Rgb { r: 15, g: 125, b: 127 });
}
