use job_agent::layout::{
    cancel_button_in, form_popup_fits, home_layout_fits, list_popup_fits, settings_rows_fit,
    tab_buttons_in,
    centered_rect, cursor_visible, form_popup_layout, home_layout, in_rect, is_left_click,
    list_popup_layout, screen_layout, settings_layout, task_layout, MouseAction, MouseButton, Rect,
};

fn r(x: u16, y: u16, width: u16, height: u16) -> Rect {
    Rect { x, y, width, height }
}

#[test]
fn rect_new_clamps_to_u16_range() {
    assert_eq!(Rect::new(65530, 2, 10, 3), r(65530, 2, 5, 3));
    assert_eq!(Rect::new(1, 2, 3, 4), r(1, 2, 3, 4));
}

#[test]
fn hit_testing() {
    let b = r(10, 5, 4, 2);
    assert!(in_rect(b, 10, 5));
    assert!(in_rect(b, 13, 6));
    assert!(!in_rect(b, 14, 6));
    assert!(!in_rect(b, 9, 5));
    assert!(!in_rect(r(0, 0, 0, 0), 0, 0));
}

#[test]
fn centring() {
    assert_eq!(centered_rect(r(0, 13, 80, 3), 22, 3), r(29, 13, 22, 3));
    assert_eq!(centered_rect(r(5, 5, 10, 2), 22, 3), r(5, 5, 10, 2));
}

#[test]
fn left_clicks() {
    assert!(is_left_click(MouseAction::Down(MouseButton::Left)));
    assert!(is_left_click(MouseAction::Up(MouseButton::Left)));
    assert!(!is_left_click(MouseAction::Down(MouseButton::Right)));
    assert!(!is_left_click(MouseAction::Other));
}

#[test]
fn cursor_blinks_every_half_second() {
    assert!(cursor_visible(0));
    assert!(cursor_visible(499));
    assert!(!cursor_visible(500));
    assert!(cursor_visible(1000));
}

#[test]
fn screen_of_eighty_by_twenty_four() {
    let l = screen_layout(r(0, 0, 80, 24));
    assert_eq!(l.header, r(0, 0, 80, 3));
    assert_eq!(l.body, r(0, 3, 80, 18));
    assert_eq!(l.footer, r(0, 21, 80, 3));
    assert_eq!(l.home_tab, r(2, 1, 4, 1));
    assert_eq!(l.task_tab, r(7, 1, 4, 1));
    assert_eq!(l.settings_tab, r(12, 1, 4, 1));
}

#[test]
fn narrow_screen_cuts_tabs_short() {
    let l = screen_layout(r(0, 0, 10, 24));
    assert_eq!(l.home_tab, r(2, 1, 4, 1));
    assert_eq!(l.task_tab, r(7, 1, 1, 1));
    assert_eq!(l.settings_tab, r(12, 1, 0, 1));
}

#[test]
fn pages_of_the_body() {
    let body = r(0, 3, 80, 18);
    let home = home_layout(body);
    assert_eq!(home.logo, r(0, 3, 80, 6));
    assert_eq!(home.input, r(0, 9, 80, 4));
    assert_eq!(home.button_row, r(0, 13, 80, 3));
    assert_eq!(home.start_button, r(29, 13, 22, 3));
    let task = task_layout(body);
    assert_eq!(task.inner, r(1, 4, 78, 16));
    assert_eq!(task.content, r(1, 4, 78, 13));
    assert_eq!(task.lower, r(1, 17, 78, 3));
    assert_eq!(task.cancel_button, r(1, 17, 18, 3));
    let settings = settings_layout(body, 5);
    assert_eq!(settings.inner, r(1, 4, 78, 16));
    assert_eq!(settings.rows.len(), 5);
    for (i, row) in settings.rows.iter().enumerate() {
        assert_eq!(*row, r(2, 4 + i as u16, 76, 1));
    }
}

#[test]
fn dialogs_over_the_body() {
    let body = r(0, 3, 80, 18);
    let list = list_popup_layout(body);
    assert_eq!(list.area, r(3, 5, 74, 14));
    assert_eq!(list.inner, r(4, 6, 72, 12));
    assert_eq!(list.hint, r(5, 17, 70, 1));
    let form = form_popup_layout(body);
    assert_eq!(form.area, r(3, 5, 74, 14));
    assert_eq!(form.inner, r(4, 6, 72, 12));
    assert_eq!(form.fields, vec![r(4, 6, 72, 1), r(4, 7, 72, 1), r(4, 8, 72, 1), r(4, 9, 72, 1)]);
    assert_eq!(form.hint, r(4, 11, 72, 7));
}

#[test]
fn tab_buttons_and_cancel_button() {
    let (home, task, settings) = tab_buttons_in(r(0, 0, 80, 3));
    assert_eq!(home, r(2, 1, 4, 1));
    assert_eq!(task, r(7, 1, 4, 1));
    assert_eq!(settings, r(12, 1, 4, 1));
    let (home, task, settings) = tab_buttons_in(r(0, 0, 3, 3));
    assert_eq!(home, r(0, 0, 0, 0));
    assert_eq!(task, r(5, 0, 0, 0));
    assert_eq!(settings, r(10, 0, 0, 0));
    assert_eq!(cancel_button_in(r(1, 17, 78, 3)), r(1, 17, 18, 3));
    assert_eq!(cancel_button_in(r(1, 17, 10, 2)), r(1, 17, 10, 2));
}

#[test]
fn fit_tests_before_layout() {
    assert!(settings_rows_fit(r(0, 3, 80, 18), 5));
    assert!(!settings_rows_fit(r(65534, 0, 1, 10), 5));
    assert!(!settings_rows_fit(r(0, 65533, 10, 2), 5));
    assert!(list_popup_fits(r(0, 3, 80, 18)));
    assert!(!list_popup_fits(r(65535, 0, 1, 1)));
}

#[test]
fn last_settings_row_may_reach_the_edge() {
    let body = r(0, 65530, 10, 5);
    assert!(settings_rows_fit(body, 5));
    let l = settings_layout(body, 5);
    assert_eq!(l.inner, r(1, 65531, 8, 3));
    assert_eq!(l.rows[4], r(2, 65535, 6, 0));
    assert!(settings_rows_fit(body, 0));
    assert!(!settings_rows_fit(body, 6));
}

#[test]
fn centring_near_the_edge() {
    assert_eq!(centered_rect(r(65400, 0, 200, 3), 22, 3), r(65489, 0, 22, 3));
    assert!(home_layout_fits(r(65400, 0, 200, 10)));
    assert!(!home_layout_fits(r(65530, 0, 200, 10)));
    assert!(form_popup_fits(r(0, 3, 80, 18)));
    assert!(!form_popup_fits(r(65535, 0, 200, 18)));
}

#[test]
fn layouts_stack_their_parts_exactly() {
    let l = screen_layout(r(0, 0, 100, 40));
    assert_eq!(l.header, r(0, 0, 100, 3));
    assert_eq!(l.body, r(0, 3, 100, 34));
    assert_eq!(l.footer, r(0, 37, 100, 3));
    let home = home_layout(r(5, 7, 60, 13));
    assert_eq!(home.logo, r(5, 7, 60, 6));
    assert_eq!(home.input, r(5, 13, 60, 4));
    assert_eq!(home.button_row, r(5, 17, 60, 3));
    let task = task_layout(r(0, 0, 30, 6));
    assert_eq!(task.inner, r(1, 1, 28, 4));
    assert_eq!(task.content, r(1, 1, 28, 1));
    assert_eq!(task.lower, r(1, 2, 28, 3));
}

#[test]
fn short_areas_keep_parts_in_order_and_inside() {
    let l = screen_layout(r(0, 0, 80, 12));
    for part in [l.header, l.body, l.footer] {
        assert!(part.y + part.height <= 12);
    }
    assert!(l.header.y + l.header.height <= l.body.y);
    assert!(l.body.y + l.body.height <= l.footer.y);
}
