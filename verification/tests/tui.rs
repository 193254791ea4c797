use kacemon::{DrawState, InputHandler, Layout, Rect};

#[test]
fn test_input_handler_creation() {
    let handler = InputHandler::new();
    assert!(!handler.is_in_filter_mode());
}

#[test]
fn test_layout_creation() {
    let layout = Layout::new(80, 24);
    assert_eq!(layout.terminal_rect(), Rect::new(0, 0, 80, 24));
}

#[test]
fn test_rect_operations() {
    let rect = Rect::new(10, 20, 100, 50);
    assert_eq!(rect.x, 10);
    assert_eq!(rect.y, 20);
    assert_eq!(rect.width, 100);
    assert_eq!(rect.height, 50);
    assert_eq!(rect.right(), 110);
    assert_eq!(rect.bottom(), 70);
    assert_eq!(rect.area(), 5000);
    assert!(!rect.is_empty());

    let inner = rect.inner(5);
    assert_eq!(inner.x, 15);
    assert_eq!(inner.y, 25);
    assert_eq!(inner.width, 90);
    assert_eq!(inner.height, 40);
}

#[test]
fn test_draw_state_default() {
    let state = DrawState::default();
    assert_eq!(state.selected_index, 0);
    assert_eq!(state.table_start_index, 0);
    assert!(!state.show_help);
    assert!(!state.in_filter_mode);
    assert!(state.filter_text.is_empty());
    assert!(!state.visible_columns.is_empty());
}
