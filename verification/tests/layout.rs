use match_ticket::composition::{
    fit_logo, lay_out_date, lay_out_score, place_guest_logo, place_home_logo, Ink, Placement,
    Resampling, Typeface,
};
use match_ticket::logo::LogoSize;

#[test]
fn a_small_logo_keeps_its_size() {
    let size = LogoSize { width: 100, height: 200 };
    assert_eq!(fit_logo(size), size);
}

#[test]
fn a_logo_at_the_limit_keeps_its_size() {
    let size = LogoSize { width: 384, height: 512 };
    assert_eq!(fit_logo(size), size);
}

#[test]
fn a_large_logo_is_cut_down_side_by_side() {
    assert_eq!(
        fit_logo(LogoSize { width: 385, height: 100 }),
        LogoSize { width: 384, height: 100 }
    );
    assert_eq!(
        fit_logo(LogoSize { width: 100, height: 513 }),
        LogoSize { width: 100, height: 512 }
    );
    assert_eq!(
        fit_logo(LogoSize { width: u32::MAX, height: u32::MAX }),
        LogoSize { width: 384, height: 512 }
    );
}

#[test]
fn the_home_logo_stands_a_twelfth_from_the_left() {
    assert_eq!(
        place_home_logo(LogoSize { width: 100, height: 100 }),
        Placement { x: 170, y: 462, width: 100, height: 100, resampling: Resampling::Lanczos3 }
    );
}

#[test]
fn the_guest_logo_ends_a_twelfth_from_the_right() {
    assert_eq!(
        place_guest_logo(LogoSize { width: 100, height: 100 }),
        Placement { x: 1778, y: 462, width: 100, height: 100, resampling: Resampling::Lanczos3 }
    );
}

#[test]
fn large_logos_are_placed_by_the_size_they_are_drawn_at() {
    let large = LogoSize { width: 4000, height: 3000 };
    assert_eq!(
        place_home_logo(large),
        Placement { x: 170, y: 256, width: 384, height: 512, resampling: Resampling::Lanczos3 }
    );
    assert_eq!(
        place_guest_logo(large),
        Placement { x: 1494, y: 256, width: 384, height: 512, resampling: Resampling::Lanczos3 }
    );
}

#[test]
fn a_logo_of_odd_height_is_centred_by_whole_pixels() {
    assert_eq!(place_home_logo(LogoSize { width: 1, height: 1 }).y, 512);
    assert_eq!(place_home_logo(LogoSize { width: 1, height: 3 }).y, 511);
}

#[test]
fn the_score_is_blue_and_large_above_the_middle() {
    let caption = lay_out_score(String::from("3 - 1"));
    assert_eq!(caption.content, "3 - 1");
    assert_eq!(caption.typeface, Typeface::Display);
    assert_eq!(caption.size, 256);
    assert_eq!(caption.ink, Ink::Blue);
    assert_eq!(caption.x, 1024 - 5 * 36);
    assert_eq!(caption.y, 256);
}

#[test]
fn a_longer_score_begins_further_left() {
    assert_eq!(lay_out_score(String::from("10 - 12")).x, 1024 - 7 * 36);
}

#[test]
fn a_score_too_long_for_the_canvas_begins_at_the_edge() {
    let fits = "1".repeat(28);
    let too_long = "1".repeat(29);
    let longest = "18446744073709551615 - 18446744073709551615";
    assert_eq!(lay_out_score(fits).x, 1024 - 28 * 36);
    assert_eq!(lay_out_score(too_long).x, 0);
    assert_eq!(lay_out_score(String::from(longest)).x, 0);
}

#[test]
fn the_date_is_black_and_small_at_the_middle() {
    let caption = lay_out_date(String::from("2023-11-14 22:13"));
    assert_eq!(caption.content, "2023-11-14 22:13");
    assert_eq!(caption.typeface, Typeface::Standard);
    assert_eq!(caption.size, 64);
    assert_eq!(caption.ink, Ink::Black);
    assert_eq!(caption.x, 824);
    assert_eq!(caption.y, 512);
}
