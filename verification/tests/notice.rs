use colored::control::set_override;
use izone::commands::notices::{enable_schedule, turn_off_ac};
use izone::helpers::pad_to_width;
use izone::notice::{box_bottom, box_line, box_row, box_rule, box_title, box_top, centre};

#[test]
fn edges_of_a_box() {
    assert_eq!(box_top(0), "╔╗");
    assert_eq!(box_top(3), "╔═══╗");
    assert_eq!(box_rule(3), "╠═══╣");
    assert_eq!(box_bottom(3), "╚═══╝");
    assert_eq!(box_top(45).chars().count(), 47);
}

#[test]
fn centred_texts() {
    assert_eq!(centre("ab", 6), "  ab  ");
    assert_eq!(centre("ab", 7), "  ab   ");
    assert_eq!(centre("abc", 6), " abc  ");
    assert_eq!(centre("ab", 2), "ab");
    assert_eq!(centre("ab", 1), "ab");
    assert_eq!(centre("ab", 0), "ab");
    assert_eq!(centre("", 3), "   ");
    assert_eq!(centre("°C", 4), " °C ");
}

#[test]
fn centred_texts_agree_with_std() {
    for text in ["", "a", "ab", "abc", "System Control", "°C"] {
        for width in 0..20usize {
            assert_eq!(centre(text, width), format!("{:^width$}", text, width = width));
        }
    }
}

#[test]
fn padded_texts() {
    assert_eq!(pad_to_width("ab", 5), "ab   ");
    assert_eq!(pad_to_width("ab", 2), "ab");
    assert_eq!(pad_to_width("ab", 1), "ab");
    assert_eq!(pad_to_width("", 2), "  ");
    assert_eq!(pad_to_width("\x1b[31mab\x1b[0m", 4), "\x1b[31mab\x1b[0m  ");
    assert_eq!(pad_to_width("21°C", 6), "21°C  ");
}

#[test]
fn lines_of_a_box() {
    assert_eq!(box_title("Title", 11), "║   Title   ║");
    assert_eq!(box_title("Title", 12), "║   Title    ║");
    assert_eq!(box_title("Title", 2), "║ Title ║");
    assert_eq!(box_title("Title", 0), "║ Title ║");
    assert_eq!(box_line("text", 10), "║ text     ║");
    assert_eq!(box_line("text", 6), "║ text ║");
    assert_eq!(box_line("longer text", 6), "║ longer text ║");
    assert_eq!(box_line("\x1b[32mON\x1b[0m", 6), "║ \x1b[32mON\x1b[0m   ║");
}

#[test]
fn rows_of_a_box() {
    assert_eq!(box_row("Mode:", "Cool", 22, 8), "║ Mode:           Cool ║");
    assert_eq!(box_row("Mode:", "\x1b[34mCool\x1b[0m", 22, 8), "║ Mode:           \x1b[34mCool\x1b[0m ║");
    assert_eq!(box_row("Mode:", "Cool", 14, 8), "║ Mode:   Cool ║");
    assert_eq!(box_row("Mode:", "Cool", 10, 8), "║ Mode:   Cool ║");
    assert_eq!(box_row("A long label:", "x", 10, 4), "║ A long label:x ║");
    assert_eq!(box_row("", "", 4, 0), "║    ║");
}

#[test]
fn lines_of_a_notice() {
    set_override(false);
    assert_eq!(
        turn_off_ac().lines(),
        vec![
            "╔═════════════════════════════════════════════╗",
            "║               System Control                ║",
            "╠═════════════════════════════════════════════╣",
            "║ AC system turned OFF.                       ║",
            "╚═════════════════════════════════════════════╝",
        ]
    );
    assert_eq!(enable_schedule(3).lines(), vec!["Schedule 3 enabled."]);
}
