use tmprocs::app::{Proc, ProcStatus};
use tmprocs::ui::{cursor_row, help_text, layout, row, Area, StatusColor};

#[test]
fn help_takes_the_last_line() {
    for height in [1u16, 2, 3, 10, 24, 57, 200, 1000, 65535] {
        let area = Area { x: 3, y: 0, width: 50, height };
        let (list, help) = layout(area);
        assert_eq!(list, Area { x: 3, y: 0, width: 50, height: height - 1 });
        assert_eq!(help, Area { x: 3, y: height - 1, width: 50, height: 1 });
    }
}

#[test]
fn layout_of_a_shifted_area() {
    for y in [1u16, 7, 300] {
        let (list, help) = layout(Area { x: 0, y, width: 80, height: 20 });
        assert_eq!(list, Area { x: 0, y, width: 80, height: 19 });
        assert_eq!(help, Area { x: 0, y: y + 19, width: 80, height: 1 });
    }
}

#[test]
fn layout_of_no_lines() {
    let area = Area { x: 2, y: 5, width: 9, height: 0 };
    assert_eq!(layout(area), (area, area));
    let end = Area { x: 0, y: 65535, width: 9, height: 4 };
    let none = Area { height: 0, ..end };
    assert_eq!(layout(end), (none, none));
}

#[test]
fn layout_at_the_end_of_the_lines() {
    let area = Area { x: 0, y: 65530, width: 9, height: 40 };
    let (list, help) = layout(area);
    assert_eq!(list, Area { x: 0, y: 65530, width: 9, height: 4 });
    assert_eq!(help, Area { x: 0, y: 65534, width: 9, height: 1 });
}

#[test]
fn cursor_follows_the_selection() {
    let list = Area { x: 0, y: 0, width: 50, height: 10 };
    assert_eq!(cursor_row(list, 0, 0), 1);
    assert_eq!(cursor_row(list, 3, 0), 4);
    assert_eq!(cursor_row(list, 7, 0), 8);
    assert_eq!(cursor_row(list, 8, 0), 8);
    assert_eq!(cursor_row(list, 20, 15), 6);
    assert_eq!(cursor_row(list, 2, 5), 1);
    assert_eq!(cursor_row(Area { y: 4, ..list }, 1, 0), 6);
    assert_eq!(cursor_row(list, 65536, 0), 8);
    assert_eq!(cursor_row(list, 65536 + 3, 65536), 4);
    assert_eq!(cursor_row(list, usize::MAX, 0), 8);
    assert_eq!(cursor_row(Area { y: 65525, ..list }, 40, 0), 65533);
}

#[test]
fn cursor_in_a_list_without_rows() {
    for height in 0..3u16 {
        assert_eq!(cursor_row(Area { x: 0, y: 4, width: 9, height }, 3, 0), 4);
    }
    assert_eq!(cursor_row(Area { x: 0, y: 4, width: 9, height: 3 }, 3, 0), 5);
}

#[test]
fn rows_show_the_state() {
    let mut p = Proc {
        name: "web".to_string(),
        cmd: "x".to_string(),
        status: ProcStatus::Running,
        is_shown: true,
    };
    let r = row(&p);
    assert_eq!((r.marker, r.symbol, r.color), ("▶ ", "●", StatusColor::Green));
    assert_eq!(r.name, "web");
    p.status = ProcStatus::Dead;
    p.is_shown = false;
    let r = row(&p);
    assert_eq!((r.marker, r.symbol, r.color), ("  ", "○", StatusColor::Red));
}

#[test]
fn help_names_the_keys() {
    assert_eq!(help_text(), "↑/k up  ↓/j down  Enter focus  s start  x kill  q quit");
}
