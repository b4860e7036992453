use weylus::input_area::{
    area_choice, centered_position, cursor_for, full_workspace_rect, get_mouse_flags,
    retained_choice, AreaChoice, CursorShape, DragState, MouseFlags, WinRect,
};

const WIN: WinRect = WinRect {
    x: 100,
    y: 100,
    w: 600,
    h: 600,
};

#[test]
fn mouse_flags_by_position() {
    assert_eq!(get_mouse_flags(WIN, 400, 400), MouseFlags::All);
    assert_eq!(get_mouse_flags(WIN, 105, 400), MouseFlags::Edge(true, true));
    assert_eq!(get_mouse_flags(WIN, 695, 400), MouseFlags::Edge(true, false));
    assert_eq!(get_mouse_flags(WIN, 400, 110), MouseFlags::Edge(false, true));
    assert_eq!(get_mouse_flags(WIN, 400, 699), MouseFlags::Edge(false, false));
    assert_eq!(get_mouse_flags(WIN, 101, 102), MouseFlags::Corner(true, true));
    assert_eq!(get_mouse_flags(WIN, 699, 690), MouseFlags::Corner(false, false));
    assert_eq!(get_mouse_flags(WIN, 130, 400), MouseFlags::Edge(true, true));
    assert_eq!(get_mouse_flags(WIN, 131, 400), MouseFlags::All);
}

#[test]
fn cursors() {
    assert_eq!(cursor_for(None), CursorShape::Default);
    assert_eq!(cursor_for(Some(MouseFlags::All)), CursorShape::Move);
    assert_eq!(cursor_for(Some(MouseFlags::Edge(true, true))), CursorShape::W);
    assert_eq!(cursor_for(Some(MouseFlags::Edge(true, false))), CursorShape::E);
    assert_eq!(cursor_for(Some(MouseFlags::Edge(false, true))), CursorShape::N);
    assert_eq!(cursor_for(Some(MouseFlags::Edge(false, false))), CursorShape::S);
    assert_eq!(cursor_for(Some(MouseFlags::Corner(true, true))), CursorShape::NWSE);
    assert_eq!(cursor_for(Some(MouseFlags::Corner(true, false))), CursorShape::NESW);
    assert_eq!(cursor_for(Some(MouseFlags::Corner(false, true))), CursorShape::NESW);
    assert_eq!(cursor_for(Some(MouseFlags::Corner(false, false))), CursorShape::NWSE);
}

#[test]
fn dragging_moves_or_resizes() {
    let d = DragState::push(WIN, 400, 400);
    assert_eq!(d.drag(410, 380), WinRect { x: 110, y: 80, w: 600, h: 600 });
    let d = DragState::push(WIN, 105, 400);
    assert_eq!(d.drag(125, 999), WinRect { x: 120, y: 100, w: 580, h: 600 });
    let d = DragState::push(WIN, 699, 699);
    assert_eq!(d.drag(719, 709), WinRect { x: 100, y: 100, w: 620, h: 610 });
    let d = DragState::push(WIN, 101, 101);
    assert_eq!(d.drag(111, 121), WinRect { x: 110, y: 120, w: 590, h: 580 });
}

#[test]
fn dragging_back_restores_the_window() {
    for &(x, y) in &[(400, 400), (105, 400), (101, 101), (699, 699), (400, 699)] {
        let d = DragState::push(WIN, x, y);
        assert_eq!(d.drag(x, y), WIN);
    }
}

#[test]
fn full_workspace_spans_all_screens() {
    let areas = [
        WinRect { x: 0, y: 0, w: 1920, h: 1050 },
        WinRect { x: -1280, y: 100, w: 1280, h: 1000 },
    ];
    assert_eq!(full_workspace_rect(&areas), WinRect { x: -1280, y: 0, w: 1920, h: 1100 });
    assert_eq!(full_workspace_rect(&[]), WinRect { x: 0, y: 0, w: 1, h: 1 });
}

#[test]
fn choices() {
    assert_eq!(area_choice(0, 3), AreaChoice::NoArea);
    assert_eq!(area_choice(1, 3), AreaChoice::Workspace(0));
    assert_eq!(area_choice(3, 3), AreaChoice::Workspace(2));
    assert_eq!(area_choice(4, 3), AreaChoice::Unexpected);
    assert_eq!(area_choice(-1, 3), AreaChoice::Unexpected);
    assert_eq!(retained_choice(3, 2), 3);
    assert_eq!(retained_choice(4, 2), 0);
    assert_eq!(retained_choice(-1, 2), 0);
    assert_eq!(retained_choice(1, 0), 1);
}

#[test]
fn centering_rounds_toward_zero() {
    let s = WinRect { x: 10, y: 20, w: 1001, h: 599 };
    assert_eq!(centered_position(s, 600), (10 + 200, 20 + 0));
    let s = WinRect { x: 0, y: 0, w: 597, h: 1200 };
    assert_eq!(centered_position(s, 600), (-1, 300));
}
