use pathtracer::progress::{dec_str, format_duration, make_color};
use pathtracer::LoadingBar;

#[test]
fn decimal_digits() {
    assert_eq!(dec_str(0), "0");
    assert_eq!(dec_str(7), "7");
    assert_eq!(dec_str(10), "10");
    assert_eq!(dec_str(65536), "65536");
    assert_eq!(dec_str(18446744073709551615), "18446744073709551615");
}

#[test]
fn duration_formatting() {
    assert_eq!(format_duration(0), " [00:00:00] ");
    assert_eq!(format_duration(3661), " [01:01:01] ");
    assert_eq!(format_duration(59), " [00:00:59] ");
    assert_eq!(format_duration(360000), " [100:00:00] ");
}

#[test]
fn color_wrapping() {
    assert_eq!(make_color(String::from("hi"), 104), "\x1b[104mhi\x1b[0m");
    assert_eq!(make_color(String::new(), 7), "\x1b[7m\x1b[0m");
}

#[test]
fn advance_builds_the_expected_line() {
    // Ten units over a 40-column terminal: the counter "  0/10 " takes
    // seven columns, the time twelve, the brackets two, leaving 19 bar
    // cells, all of them still to do.
    let mut bar = LoadingBar::new(10, 1, 40);
    let line = bar.advance(3661);
    let expected = format!(
        "\x1b[u\x1b[1A [01:01:01] [\x1b[104m\x1b[0m\x1b[107m{}\x1b[0m]  0/10 \n",
        " ".repeat(19),
    );
    assert_eq!(line, expected);
    assert_eq!(bar.num_done(), 1);
    assert_eq!(bar.get_elapsed(), 3661);
}

#[test]
fn advance_moves_the_bar() {
    let mut bar = LoadingBar::new(10, 1, 40);
    for _ in 0..5 {
        bar.advance(0);
    }
    // After five advances the shown count is 5 of 10: the bar splits
    // into 10 done cells and 10 to-do cells (rounded from 9.5 each of
    // 19), and the counter right-aligns the 5.
    let line = bar.advance(60);
    let expected = format!(
        "\x1b[u\x1b[1A [00:01:00] [\x1b[104m{}\x1b[0m\x1b[107m{}\x1b[0m]  5/10 \n",
        " ".repeat(10),
        " ".repeat(10),
    );
    assert_eq!(line, expected);
    assert_eq!(bar.num_done(), 6);
}

#[test]
fn narrow_terminal_saturates_to_no_cells() {
    let mut bar = LoadingBar::new(3, 1, 5);
    let line = bar.advance(0);
    let expected = "\x1b[u\x1b[1A [00:00:00] [\x1b[104m\x1b[0m\x1b[107m\x1b[0m] 0/3 \n";
    assert_eq!(line, expected);
}
