use wg_tui::layout::{centered_rect, connections_areas, screen_areas, Area};

#[test]
fn centered_rect_in_even_margins() {
    let r = centered_rect(46, 7, Area { x: 0, y: 0, width: 100, height: 31 });
    assert_eq!(r, Area { x: 27, y: 12, width: 46, height: 7 });
}

#[test]
fn centered_rect_offset_area() {
    let r = centered_rect(60, 18, Area { x: 10, y: 5, width: 80, height: 30 });
    assert_eq!(r, Area { x: 20, y: 11, width: 60, height: 18 });
}

#[test]
fn screen_split_into_header_view_status() {
    let (h, v, c) = screen_areas(Area { x: 0, y: 0, width: 100, height: 30 });
    assert_eq!(h, Area { x: 0, y: 0, width: 100, height: 3 });
    assert_eq!(v, Area { x: 0, y: 3, width: 100, height: 24 });
    assert_eq!(c, Area { x: 0, y: 27, width: 100, height: 3 });
}

#[test]
fn connections_split_into_search_and_list() {
    let (s, l) = connections_areas(Area { x: 0, y: 3, width: 100, height: 24 });
    assert_eq!(s, Area { x: 0, y: 3, width: 100, height: 3 });
    assert_eq!(l, Area { x: 0, y: 6, width: 100, height: 21 });
}

#[test]
fn centered_rect_in_odd_margins() {
    let r = centered_rect(45, 8, Area { x: 0, y: 0, width: 100, height: 31 });
    assert_eq!((r.width, r.height), (45, 8));
    let (left, right) = (r.x as i32, 100 - (r.x as i32 + 45));
    let (top, bottom) = (r.y as i32, 31 - (r.y as i32 + 8));
    assert!((left - right).abs() <= 1 && left + right == 55);
    assert!((top - bottom).abs() <= 1 && top + bottom == 23);
}

#[test]
fn centered_rect_too_large_stays_inside() {
    let area = Area { x: 2, y: 1, width: 20, height: 5 };
    let r = centered_rect(46, 7, area);
    assert!(r.x >= 2 && r.x + r.width <= 22);
    assert!(r.y >= 1 && r.y + r.height <= 6);
}

#[test]
fn screen_split_on_a_tall_screen() {
    let (h, v, c) = screen_areas(Area { x: 4, y: 2, width: 50, height: 14 });
    assert_eq!(h, Area { x: 4, y: 2, width: 50, height: 3 });
    assert_eq!(v, Area { x: 4, y: 5, width: 50, height: 8 });
    assert_eq!(c, Area { x: 4, y: 13, width: 50, height: 3 });
}
