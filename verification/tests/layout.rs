use cdown::layout::{center_area, centered_lengths, margin, Area};

fn area(x: u16, y: u16, width: u16, height: u16) -> Area {
    Area { x, y, width, height }
}

fn expected(r: Area, content_height: u16, content_width: u16) -> Area {
    let height = content_height.min(r.height);
    let width = content_width.min(r.width);
    let above = (r.height - height) - (r.height - height) / 2;
    let left = (r.width - width) - (r.width - width) / 2;
    area(r.x + left, r.y + above, width, height)
}

#[test]
fn margin_is_half_of_the_free_cells() {
    assert_eq!(margin(24, 5), 9);
    assert_eq!(margin(25, 5), 10);
    assert_eq!(margin(80, 11), 34);
    assert_eq!(margin(10, 10), 0);
    assert_eq!(margin(11, 10), 0);
    assert_eq!(margin(12, 10), 1);
    assert_eq!(margin(u16::MAX, 0), 32767);
    assert_eq!(margin(0, 0), 0);
}

#[test]
fn margin_is_nothing_when_the_content_does_not_fit() {
    assert_eq!(margin(5, 24), 0);
    assert_eq!(margin(0, 1), 0);
    assert_eq!(margin(0, u16::MAX), 0);
}

#[test]
fn centered_lengths_put_the_content_between_two_margins() {
    assert_eq!(centered_lengths(25, 5), [10, 5, 10]);
    assert_eq!(centered_lengths(80, 80), [0, 80, 0]);
    assert_eq!(centered_lengths(0, 0), [0, 0, 0]);
    assert_eq!(centered_lengths(u16::MAX, 1), [32767, 1, 32767]);
}

#[test]
fn centered_lengths_give_the_odd_cell_to_the_leading_margin() {
    assert_eq!(centered_lengths(24, 5), [10, 5, 9]);
    assert_eq!(centered_lengths(80, 11), [35, 11, 34]);
    assert_eq!(centered_lengths(11, 10), [1, 10, 0]);
    assert_eq!(centered_lengths(u16::MAX, 0), [32768, 0, 32767]);
}

#[test]
fn centered_lengths_cut_a_content_that_does_not_fit() {
    assert_eq!(centered_lengths(3, 11), [0, 3, 0]);
    assert_eq!(centered_lengths(0, 5), [0, 0, 0]);
    assert_eq!(centered_lengths(79, 80), [0, 79, 0]);
}

#[test]
fn centered_lengths_add_up_to_the_length() {
    for rect in [0u16, 1, 2, 3, 10, 11, 79, 80, 65534, 65535] {
        for content in [0u16, 1, 2, 5, 10, 11, 80, 81, 65535] {
            let [before, shown, behind] = centered_lengths(rect, content);
            assert_eq!(before as u32 + shown as u32 + behind as u32, rect as u32);
            assert_eq!(behind, margin(rect, content));
            assert!(before == behind || before == behind + 1);
            assert_eq!(shown, content.min(rect));
        }
    }
}

#[test]
fn areas_that_reach_past_the_last_coordinate_are_off_screen() {
    assert!(area(0, 0, 0, 0).is_on_screen());
    assert!(area(0, 0, u16::MAX, u16::MAX).is_on_screen());
    assert!(area(u16::MAX, u16::MAX, 0, 0).is_on_screen());
    assert!(area(65000, 10, 535, 20).is_on_screen());
    assert!(!area(65000, 10, 536, 20).is_on_screen());
    assert!(!area(10, 65000, 20, 536).is_on_screen());
    assert!(!area(1, 0, u16::MAX, 0).is_on_screen());
}

#[test]
fn center_area_of_a_small_content() {
    assert_eq!(center_area(area(0, 0, 40, 11), 5, 10), area(15, 3, 10, 5));
}

#[test]
fn center_area_for_the_timer_takes_the_middle_rows() {
    assert_eq!(center_area(area(0, 0, 80, 25), 5, 80), area(0, 10, 80, 5));
    assert_eq!(center_area(area(0, 0, 80, 25), 5, 78), area(1, 10, 78, 5));
}

#[test]
fn center_area_for_the_pause_box() {
    assert_eq!(center_area(area(0, 0, 80, 25), 3, 11), area(35, 11, 11, 3));
    assert_eq!(center_area(area(0, 0, 81, 25), 3, 11), area(35, 11, 11, 3));
}

#[test]
fn center_area_gives_the_odd_row_to_the_margin_above() {
    assert_eq!(center_area(area(0, 0, 80, 24), 5, 80), area(0, 10, 80, 5));
    assert_eq!(center_area(area(2, 3, 80, 24), 5, 80), area(2, 13, 80, 5));
    assert_eq!(center_area(area(0, 0, 10, 6), 5, 10), area(0, 1, 10, 5));
}

#[test]
fn center_area_cuts_a_content_that_does_not_fit() {
    assert_eq!(center_area(area(4, 7, 20, 3), 5, 40), area(4, 7, 20, 3));
    assert_eq!(center_area(area(4, 7, 20, 3), 5, 10), area(9, 7, 10, 3));
    assert_eq!(center_area(area(4, 7, 20, 30), 5, 40), area(4, 20, 20, 5));
}

#[test]
fn center_area_away_from_the_origin() {
    assert_eq!(center_area(area(3, 2, 100, 40), 5, 40), area(33, 20, 40, 5));
    assert_eq!(center_area(area(65000, 65000, 535, 535), 35, 135), area(65200, 65250, 135, 35));
}

#[test]
fn center_area_of_an_empty_screen_is_empty() {
    assert_eq!(center_area(area(0, 0, 0, 0), 5, 0), area(0, 0, 0, 0));
    assert_eq!(center_area(area(9, 8, 0, 0), 5, 11), area(9, 8, 0, 0));
    assert_eq!(center_area(area(9, 8, 7, 0), 5, 3), area(11, 8, 3, 0));
}

#[test]
fn center_area_of_an_empty_content() {
    assert_eq!(center_area(area(0, 0, 10, 10), 0, 0), area(5, 5, 0, 0));
    assert_eq!(center_area(area(0, 0, 11, 9), 0, 0), area(6, 5, 0, 0));
}

#[test]
fn center_area_of_the_largest_screen() {
    let screen = area(0, 0, u16::MAX, u16::MAX);
    assert_eq!(center_area(screen, 5, 30), expected(screen, 5, 30));
    assert_eq!(center_area(screen, u16::MAX, u16::MAX), screen);
    assert_eq!(center_area(screen, 0, 0), area(32768, 32768, 0, 0));
}

#[test]
fn center_area_follows_the_margin_rule_on_small_screens() {
    for width in 0..=12u16 {
        for height in 0..=9u16 {
            for content_width in 0..=14u16 {
                for content_height in 0..=11u16 {
                    let r = area(3, 5, width, height);
                    assert_eq!(
                        center_area(r, content_height, content_width),
                        expected(r, content_height, content_width)
                    );
                }
            }
        }
    }
}

#[test]
fn center_area_follows_the_margin_rule_on_usual_screens() {
    for width in [20u16, 79, 80, 81, 120, 132, 200, 255, 256, 1000] {
        for height in [1u16, 5, 6, 24, 25, 43, 50, 100] {
            for (content_height, content_width) in [(5u16, width), (3, 11), (5, 30), (5, 40), (5, 125), (7, 7)] {
                for (x, y) in [(0u16, 0u16), (1, 1), (10, 0), (0, 7)] {
                    let r = area(x, y, width, height);
                    assert_eq!(
                        center_area(r, content_height, content_width),
                        expected(r, content_height, content_width)
                    );
                }
            }
        }
    }
}

#[test]
fn center_area_lies_inside_the_screen() {
    for (r, content_height, content_width) in [
        (area(0, 0, 80, 24), 5u16, 80u16),
        (area(0, 0, 80, 24), 3, 11),
        (area(7, 9, 31, 17), 5, 40),
        (area(7, 9, 2, 2), 5, 40),
        (area(65535, 65535, 0, 0), 1, 1),
    ] {
        let shown = center_area(r, content_height, content_width);
        assert!(r.x <= shown.x && shown.x + shown.width <= r.x + r.width);
        assert!(r.y <= shown.y && shown.y + shown.height <= r.y + r.height);
        assert!(shown.width <= content_width && shown.height <= content_height);
    }
}
