use footage::info::{even_dimensions, even_floor, get_width_height_from_report, scaled_dimensions, Dimensions};

fn read(report: &str) -> Option<(u32, u32, Option<(u32, u32)>)> {
    get_width_height_from_report(report).map(|(d, f)| {
        (d.width, d.height, f.map(|f| (f.nominator, f.denominator)))
    })
}

#[test]
fn report_with_framerate() {
    assert_eq!(read("1920x1080x30000/1001\n"), Some((1920, 1080, Some((30000, 1001)))));
}

#[test]
fn report_without_framerate() {
    assert_eq!(read("640x480"), Some((640, 480, None)));
}

#[test]
fn report_with_spaces_around_fields() {
    assert_eq!(read("  1280 x 720 x 25 / 1 \n"), Some((1280, 720, Some((25, 1)))));
    assert_eq!(read("\u{a0}800x600\u{3000}"), Some((800, 600, None)));
}

#[test]
fn report_with_plus_sign() {
    assert_eq!(read("+2x+3"), Some((2, 3, None)));
}

#[test]
fn report_rejected_field_counts() {
    assert_eq!(read(""), None);
    assert_eq!(read("1920"), None);
    assert_eq!(read("1x2x3/1x4"), None);
}

#[test]
fn report_rejected_numbers() {
    assert_eq!(read("axb"), None);
    assert_eq!(read("-1x2"), None);
    assert_eq!(read("4294967296x2"), None);
    assert_eq!(read("x2"), None);
    assert_eq!(read("+x2"), None);
}

#[test]
fn report_largest_number() {
    assert_eq!(read("4294967295x1"), Some((4294967295, 1, None)));
}

#[test]
fn report_rejected_framerate() {
    assert_eq!(read("1x2x30"), None);
    assert_eq!(read("1x2x30/1/1"), None);
    assert_eq!(read("1x2x30/"), None);
    assert_eq!(read("1x2x/1"), None);
}

#[test]
fn swap_trades_sides() {
    let d = Dimensions { width: 1920u32, height: 1080u32 };
    let s = d.swap();
    assert_eq!((s.width, s.height), (1080, 1920));
    let back = s.swap();
    assert_eq!((back.width, back.height), (1920, 1080));
}

#[test]
fn even_rounding() {
    assert_eq!(even_floor(0), 0);
    assert_eq!(even_floor(7), 6);
    assert_eq!(even_floor(8), 8);
    assert_eq!(even_floor(u32::MAX), u32::MAX - 1);
    let d = even_dimensions(641, 481);
    assert_eq!((d.width, d.height), (640, 480));
}

#[test]
fn scaling_by_percent() {
    let d = scaled_dimensions(Dimensions { width: 1920, height: 1080 }, 50, 50);
    assert_eq!((d.width, d.height), (960, 540));
    let d = scaled_dimensions(Dimensions { width: 1001, height: 333 }, 100, 33);
    assert_eq!((d.width, d.height), (1000, 108));
}

#[test]
fn report_lines_read_back() {
    for (w, h, rate) in [
        (0u32, 0u32, None),
        (1920, 1080, Some((30000u32, 1001u32))),
        (u32::MAX, 7, Some((0, u32::MAX))),
        (10, 100, None),
    ] {
        let line = match rate {
            Some((n, d)) => format!("{}x{}x{}/{}\n", w, h, n, d),
            None => format!("{}x{}\n", w, h),
        };
        assert_eq!(read(&line), Some((w, h, rate)));
    }
}
