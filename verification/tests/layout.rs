use kacemon::layout::column_layout;
use kacemon::{Layout, Rect};

#[test]
fn main_layout_splits_a_common_terminal() {
    let layout = Layout::new(80, 24);
    assert_eq!(layout.terminal_rect(), Rect::new(0, 0, 80, 24));
    let main = layout.main_layout();
    assert_eq!(main.top_bar, Rect::new(0, 0, 80, 1));
    assert_eq!(main.gauges, Rect::new(0, 1, 80, 4));
    assert_eq!(main.table, Rect::new(0, 5, 80, 12));
    assert_eq!(main.network, Rect::new(0, 17, 40, 6));
    assert_eq!(main.temperature, Rect::new(40, 17, 40, 6));
    assert_eq!(main.footer, Rect::new(0, 23, 80, 1));
}

#[test]
fn main_layout_gives_the_odd_column_to_the_right() {
    let main = Layout::new(81, 40).main_layout();
    assert_eq!(main.network, Rect::new(0, 28, 40, 11));
    assert_eq!(main.temperature, Rect::new(40, 28, 41, 11));
    assert_eq!(main.table, Rect::new(0, 5, 81, 23));
}

#[test]
fn main_layout_collapses_on_a_tiny_terminal() {
    let main = Layout::new(0, 0).main_layout();
    assert_eq!(main.top_bar, Rect::new(0, 0, 0, 1));
    assert_eq!(main.gauges, Rect::new(0, 1, 0, 0));
    assert_eq!(main.table, Rect::new(0, 1, 0, 0));
    assert_eq!(main.network, Rect::new(0, 0, 0, 4));
    assert_eq!(main.temperature, Rect::new(0, 0, 0, 4));
    assert_eq!(main.footer, Rect::new(0, 0, 0, 1));

    let main = Layout::new(10, 5).main_layout();
    assert_eq!(main.gauges, Rect::new(0, 1, 10, 3));
    assert_eq!(main.footer, Rect::new(0, 4, 10, 1));
    assert_eq!(main.network, Rect::new(0, 0, 5, 4));
    assert!(main.table.is_empty());
}

#[test]
fn main_layout_holds_for_the_largest_terminal() {
    let main = Layout::new(u16::MAX, u16::MAX).main_layout();
    assert_eq!(main.footer, Rect::new(0, 65534, 65535, 1));
    assert_eq!(main.gauges, Rect::new(0, 1, 65535, 4));
    assert_eq!(main.network, Rect::new(0, 43691, 32767, 21843));
    assert_eq!(main.temperature, Rect::new(32767, 43691, 32768, 21843));
    assert_eq!(main.table, Rect::new(0, 5, 65535, 43686));
}

#[test]
fn update_terminal_size_replaces_the_size() {
    let mut layout = Layout::new(80, 24);
    layout.update_terminal_size(120, 50);
    assert_eq!(layout.terminal_rect(), Rect::new(0, 0, 120, 50));
    assert_eq!(layout.main_layout().footer, Rect::new(0, 49, 120, 1));
}

#[test]
fn gauges_layout_halves_the_band() {
    let layout = Layout::new(80, 24);
    let gauges = layout.gauges_layout(Rect::new(0, 1, 81, 4));
    assert_eq!(gauges.cpu, Rect::new(0, 1, 40, 4));
    assert_eq!(gauges.memory, Rect::new(40, 1, 41, 4));
    let far = layout.gauges_layout(Rect::new(65530, 0, 20, 2));
    assert_eq!(far.memory, Rect::new(65535, 0, 10, 2));
}

#[test]
fn name_column_takes_the_slack() {
    let layout = Layout::new(80, 24);
    let columns = ["PID", "NAME", "USER", "CPU%", "MEM%", "STATE"];
    let rects = layout.table_layout(Rect::new(0, 5, 80, 12), &columns);
    assert_eq!(
        rects,
        vec![
            Rect::new(0, 5, 8, 12),
            Rect::new(8, 5, 42, 12),
            Rect::new(50, 5, 12, 12),
            Rect::new(62, 5, 6, 12),
            Rect::new(68, 5, 6, 12),
            Rect::new(74, 5, 6, 12),
        ]
    );
    let total: u32 = rects.iter().map(|r| r.width as u32).sum();
    assert_eq!(total, 80);
}

#[test]
fn columns_without_a_name_keep_their_widths() {
    let rects = column_layout(Rect::new(3, 0, 50, 2), &["PID", "FOO", "THR", "TIME"]);
    let widths: Vec<u16> = rects.iter().map(|r| r.width).collect();
    assert_eq!(widths, vec![8, 10, 4, 8]);
    let starts: Vec<u16> = rects.iter().map(|r| r.x).collect();
    assert_eq!(starts, vec![3, 11, 21, 25]);
}

#[test]
fn only_the_first_name_column_grows() {
    let rects = column_layout(Rect::new(0, 0, 100, 2), &["NAME", "NAME"]);
    let widths: Vec<u16> = rects.iter().map(|r| r.width).collect();
    assert_eq!(widths, vec![80, 20]);
}

#[test]
fn columns_are_squeezed_in_proportion() {
    let columns = ["PID", "NAME", "USER", "CPU%", "MEM%", "RSS", "STATE"];
    let rects = column_layout(Rect::new(0, 0, 29, 2), &columns);
    let widths: Vec<u16> = rects.iter().map(|r| r.width).collect();
    assert_eq!(widths, vec![3, 8, 5, 2, 2, 3, 2]);
    assert!(widths.iter().map(|w| *w as u32).sum::<u32>() <= 29);
    let exact = column_layout(Rect::new(0, 0, 66, 2), &columns);
    let widths: Vec<u16> = exact.iter().map(|r| r.width).collect();
    assert_eq!(widths, vec![8, 20, 12, 6, 6, 8, 6]);
}

#[test]
fn squeezed_columns_keep_one_cell_each() {
    let rects = column_layout(Rect::new(0, 0, 1, 2), &["PID", "NAME"]);
    let widths: Vec<u16> = rects.iter().map(|r| r.width).collect();
    assert_eq!(widths, vec![1, 1]);
    let rects = column_layout(Rect::new(0, 0, 8, 2), &["THR", "NAME", "USER"]);
    let widths: Vec<u16> = rects.iter().map(|r| r.width).collect();
    assert_eq!(widths, vec![1, 4, 2]);
}

#[test]
fn column_widths_stay_within_the_width_where_none_is_rounded_up() {
    let columns = ["PID", "NAME", "USER", "CPU%", "MEM%", "RSS", "VSZ", "THR", "STATE", "TIME"];
    for width in 1..200u16 {
        let rects = column_layout(Rect::new(0, 0, width, 3), &columns);
        assert_eq!(rects.len(), columns.len());
        let total: u32 = rects.iter().map(|r| r.width as u32).sum();
        assert!(rects.iter().all(|r| r.width >= 1));
        if width >= 21 {
            assert!(total <= width as u32, "width {}", width);
        }
        if width >= 86 {
            assert_eq!(total, width as u32);
        }
    }
}

#[test]
fn no_columns_or_no_width_give_no_rectangles() {
    let none: [&str; 0] = [];
    assert!(column_layout(Rect::new(0, 0, 80, 2), &none).is_empty());
    assert!(column_layout(Rect::new(0, 0, 0, 2), &["PID"]).is_empty());
}

#[test]
fn rectangles_hold_at_the_edges() {
    let rect = Rect::new(65530, 65530, 100, 100);
    assert_eq!(rect.right(), 65535);
    assert_eq!(rect.bottom(), 65535);
    assert_eq!(Rect::new(0, 0, 300, 300).area(), 65535);
    assert_eq!(Rect::new(0, 0, 255, 257).area(), 65535);
    assert_eq!(Rect::new(0, 0, 255, 256).area(), 65280);
    assert!(Rect::new(1, 1, 0, 5).is_empty());
    assert!(Rect::new(1, 1, 5, 0).is_empty());
    assert_eq!(Rect::new(5, 5, 3, 3).inner(2), Rect::new(7, 7, 0, 0));
    assert_eq!(Rect::new(5, 5, 3, 3).inner(40000), Rect::new(40005, 40005, 0, 0));
}

#[test]
fn rectangles_intersect_where_they_share_a_cell() {
    let a = Rect::new(0, 0, 10, 10);
    assert!(a.intersects(&Rect::new(5, 5, 10, 10)));
    assert!(a.intersects(&Rect::new(9, 9, 1, 1)));
    assert!(!a.intersects(&Rect::new(10, 0, 5, 5)));
    assert!(!a.intersects(&Rect::new(0, 10, 5, 5)));
    assert!(!a.intersects(&Rect::new(20, 20, 5, 5)));
}
