use job_agent::layout::Rect;
use job_agent::provider::ServiceProvider;
use job_agent::layout::screen_layout;
use job_agent::tui::{
    empty_list_text, highlighted_row, list_hint, ui_regions, ui_regions_fit, ServiceListPopup,
    active_form_field_mut, form_line, service_line, settings_items, settings_line_prefix,
    AddServicePopup, App, Command, Key, ListPurpose, PlannerEvent, PlannerTaskCancelResponse,
    PlannerTaskStatusResponse, PlannerTaskSubmitResponse, Popup, Tab, UiRegions,
};

fn provider(id: i64, name: &str) -> ServiceProvider {
    ServiceProvider {
        id,
        provider_name: name.to_string(),
        model_name: "m".to_string(),
        api_url: "https://u".to_string(),
        api_key: "k".to_string(),
    }
}

fn type_text(app: &mut App, text: &str) {
    for c in text.chars() {
        assert!(matches!(app.on_key(Key::Char(c), 0), Command::Idle));
    }
}

#[test]
fn starts_on_home_page() {
    let app = App::new();
    assert!(app.running());
    assert_eq!(app.active_tab(), Tab::Home);
    assert_eq!(app.status(), "就绪：可使用键盘或鼠标操作");
    assert_eq!(app.selected_setting(), 0);
    assert!(matches!(app.popup(), Popup::Closed));
    assert!(!app.has_task());
    assert_eq!(app.cancel_button_label(), "[ 暂无任务 ]");
}

#[test]
fn q_and_escape_quit() {
    let mut app = App::new();
    app.on_key(Key::Char('q'), 0);
    assert!(!app.running());
    let mut app = App::new();
    app.on_key(Key::Esc, 0);
    assert!(!app.running());
}

#[test]
fn tabs_cycle_with_arrows() {
    let mut app = App::new();
    app.on_key(Key::Right, 0);
    assert_eq!(app.active_tab(), Tab::Task);
    app.on_key(Key::Tab, 0);
    assert_eq!(app.active_tab(), Tab::Settings);
    app.on_key(Key::Right, 0);
    assert_eq!(app.active_tab(), Tab::Home);
    app.on_key(Key::Left, 0);
    assert_eq!(app.active_tab(), Tab::Settings);
}

#[test]
fn settings_selection_wraps() {
    let mut app = App::new();
    app.on_key(Key::Left, 0);
    app.on_key(Key::Up, 0);
    assert_eq!(app.selected_setting(), 4);
    app.on_key(Key::Down, 0);
    assert_eq!(app.selected_setting(), 0);
    app.on_key(Key::Down, 0);
    app.on_key(Key::Up, 0);
    assert_eq!(app.selected_setting(), 0);
}

#[test]
fn typing_and_erasing_on_home_page() {
    let mut app = App::new();
    type_text(&mut app, "hi\u{1}");
    assert_eq!(app.home_input(), "hi");
    app.on_key(Key::Backspace, 0);
    assert_eq!(app.home_input(), "h");
    app.on_key(Key::Backspace, 0);
    app.on_key(Key::Backspace, 0);
    assert_eq!(app.home_input(), "");
}

#[test]
fn blank_task_is_refused() {
    let mut app = App::new();
    type_text(&mut app, "   ");
    assert!(matches!(app.on_key(Key::Enter, 0), Command::Idle));
    assert_eq!(app.status(), "请先输入任务需求");
}

#[test]
fn task_lifecycle() {
    let mut app = App::new();
    type_text(&mut app, "  find jobs ");
    match app.on_key(Key::Enter, 0) {
        Command::SubmitTask { goal, max_steps } => {
            assert_eq!(goal, "find jobs");
            assert_eq!(max_steps, 12);
        }
        other => panic!("unexpected {:?}", other),
    }
    app.task_submitted(Ok(PlannerTaskSubmitResponse {
        task_id: "t-1".to_string(),
        status: "accepted".to_string(),
    }));
    assert_eq!(app.active_tab(), Tab::Task);
    assert_eq!(app.status(), "任务已提交，task_id=t-1");
    assert!(app.has_task());
    match app.poll_task_updates(10) {
        Command::FetchTaskStatus(id) => assert_eq!(id, "t-1"),
        other => panic!("unexpected {:?}", other),
    }
    assert!(matches!(app.poll_task_updates(300), Command::Idle));
    let next = app.task_status_loaded(Ok(PlannerTaskStatusResponse {
        status: "running".to_string(),
        stage: "plan".to_string(),
        message: "thinking".to_string(),
        progress: 40,
        step_count: 3,
        max_steps: 12,
        error: None,
    }));
    assert_eq!(app.status(), "任务状态：running | 阶段：plan | 40%");
    match next {
        Command::FetchTaskEvents(id) => assert_eq!(id, "t-1"),
        other => panic!("unexpected {:?}", other),
    }
    app.task_events_loaded(Ok(vec![PlannerEvent {
        seq: 1,
        event_type: "info".to_string(),
        stage: "plan".to_string(),
        message: "started".to_string(),
        timestamp: "12:00".to_string(),
    }]));
    let lines = app.task_page_lines();
    assert_eq!(
        lines,
        vec![
            "任务中心".to_string(),
            "task_id: t-1".to_string(),
            "状态: running".to_string(),
            "阶段: plan".to_string(),
            "当前消息: thinking".to_string(),
            "进度: 40% (步数 3/12)".to_string(),
            "最近事件:".to_string(),
            "#1 [info|plan] 12:00 | started".to_string(),
            "实时Python日志(WS):".to_string(),
        ]
    );
    app.task_status_loaded(Ok(PlannerTaskStatusResponse {
        status: "success".to_string(),
        stage: "done".to_string(),
        message: "all good".to_string(),
        progress: 100,
        step_count: 5,
        max_steps: 12,
        error: Some("none".to_string()),
    }));
    assert_eq!(app.status(), "任务结束：success（all good）");
    assert_eq!(app.cancel_button_label(), "[ 取消任务 ]");
    match app.cancel_current_task() {
        Command::CancelTask(id) => assert_eq!(id, "t-1"),
        other => panic!("unexpected {:?}", other),
    }
    app.task_cancelled(Ok(PlannerTaskCancelResponse {
        task_id: "t-1".to_string(),
        cancelled: true,
        status: "cancelled".to_string(),
    }));
    assert_eq!(app.status(), "已发送取消请求，task_id=t-1");
}

#[test]
fn submission_failures_are_reported() {
    let mut app = App::new();
    app.task_submitted(Err("timeout".to_string()));
    assert_eq!(app.status(), "任务提交失败: timeout");
    app.task_submitted(Ok(PlannerTaskSubmitResponse {
        task_id: "x".to_string(),
        status: "busy".to_string(),
    }));
    assert_eq!(app.status(), "任务提交失败：后端状态=busy");
    assert!(!app.has_task());
    assert!(matches!(app.cancel_current_task(), Command::Idle));
    assert_eq!(app.status(), "暂无可取消任务");
}

#[test]
fn view_providers_dialog() {
    let mut app = App::new();
    app.on_key(Key::Left, 0);
    assert!(matches!(app.on_key(Key::Enter, 0), Command::FetchServices(ListPurpose::View)));
    app.services_loaded(ListPurpose::View, Ok(vec![provider(1, "a"), provider(2, "b")]));
    assert_eq!(app.status(), "已打开：查看服务商");
    app.on_key(Key::Down, 0);
    app.on_key(Key::Down, 0);
    match app.popup() {
        Popup::ViewServices(p) => assert_eq!(p.selected, 1),
        other => panic!("unexpected {:?}", other),
    }
    app.on_key(Key::Char('q'), 0);
    assert!(app.running());
    app.on_key(Key::Up, 0);
    app.on_key(Key::Up, 0);
    match app.popup() {
        Popup::ViewServices(p) => assert_eq!(p.selected, 0),
        other => panic!("unexpected {:?}", other),
    }
    app.on_key(Key::Enter, 0);
    assert!(matches!(app.popup(), Popup::Closed));
    app.services_loaded(ListPurpose::View, Err("down".to_string()));
    assert_eq!(app.status(), "查看服务商失败: down");
}

#[test]
fn delete_provider_dialog() {
    let mut app = App::new();
    app.on_key(Key::Left, 0);
    app.on_key(Key::Down, 0);
    app.on_key(Key::Down, 0);
    assert!(matches!(app.on_key(Key::Enter, 0), Command::FetchServices(ListPurpose::Delete)));
    app.services_loaded(ListPurpose::Delete, Ok(vec![provider(7, "a"), provider(9, "b")]));
    app.on_key(Key::Down, 0);
    match app.on_key(Key::Enter, 0) {
        Command::DeleteService(id) => assert_eq!(id, 9),
        other => panic!("unexpected {:?}", other),
    }
    assert!(matches!(app.service_deleted(9, Ok(true)), Command::FetchServices(ListPurpose::Delete)));
    assert_eq!(app.status(), "已删除服务商，id=9");
    assert!(matches!(app.service_deleted(9, Ok(false)), Command::Idle));
    assert_eq!(app.status(), "删除失败，未找到 id=9");
    assert!(matches!(app.service_deleted(9, Err("e".to_string())), Command::Idle));
    assert_eq!(app.status(), "删除服务商失败: e");
    app.services_loaded(ListPurpose::Delete, Ok(Vec::new()));
    assert!(matches!(app.on_key(Key::Enter, 0), Command::Idle));
    app.services_loaded(ListPurpose::Delete, Err("x".to_string()));
    assert_eq!(app.status(), "读取服务商失败: x");
}

#[test]
fn add_provider_form() {
    let mut app = App::new();
    app.on_key(Key::Left, 0);
    app.on_key(Key::Down, 0);
    assert!(matches!(app.on_key(Key::Enter, 0), Command::Idle));
    assert_eq!(app.status(), "已打开：添加服务商（请填写表单）");
    match app.popup() {
        Popup::AddService(f) => {
            assert_eq!(f.model_name, "gpt-4o-mini");
            assert_eq!(f.api_url, "https://api.example.com/v1");
            assert_eq!(f.active_field, 0);
        }
        other => panic!("unexpected {:?}", other),
    }
    type_text(&mut app, " Acme ");
    app.on_key(Key::Enter, 0);
    app.on_key(Key::Enter, 0);
    app.on_key(Key::Enter, 0);
    assert!(matches!(app.on_key(Key::Enter, 0), Command::Idle));
    assert_eq!(app.status(), "请完整填写：服务商、模型、API URL、API Key");
    type_text(&mut app, "sk-1x");
    app.on_key(Key::Backspace, 0);
    match app.on_key(Key::Enter, 0) {
        Command::AddService(input) => {
            assert_eq!(input.provider_name, "Acme");
            assert_eq!(input.model_name, "gpt-4o-mini");
            assert_eq!(input.api_url, "https://api.example.com/v1");
            assert_eq!(input.api_key, "sk-1");
        }
        other => panic!("unexpected {:?}", other),
    }
    app.service_added(Err("conflict".to_string()));
    assert_eq!(app.status(), "添加服务商失败: conflict");
    assert!(matches!(app.popup(), Popup::AddService(_)));
    app.service_added(Ok(42));
    assert_eq!(app.status(), "已添加服务商，id=42");
    assert!(matches!(app.popup(), Popup::Closed));
}

#[test]
fn form_fields_cycle() {
    let mut app = App::new();
    app.on_key(Key::Left, 0);
    app.on_key(Key::Down, 0);
    app.on_key(Key::Enter, 0);
    app.on_key(Key::Up, 0);
    match app.popup() {
        Popup::AddService(f) => assert_eq!(f.active_field, 3),
        other => panic!("unexpected {:?}", other),
    }
    for _ in 0..4 {
        app.on_key(Key::Tab, 0);
    }
    match app.popup() {
        Popup::AddService(f) => assert_eq!(f.active_field, 3),
        other => panic!("unexpected {:?}", other),
    }
    app.on_key(Key::Esc, 0);
    assert!(matches!(app.popup(), Popup::Closed));
    assert!(app.running());
}

#[test]
fn other_settings_entries_only_report() {
    let mut app = App::new();
    app.on_key(Key::Left, 0);
    app.on_key(Key::Up, 0);
    assert!(matches!(app.on_key(Key::Enter, 0), Command::Idle));
    assert_eq!(app.status(), "设置动作：配置");
    app.on_key(Key::Up, 0);
    app.on_key(Key::Enter, 0);
    assert_eq!(app.status(), "设置动作：反馈问题");
}

#[test]
fn clicks_switch_tabs_and_press_buttons() {
    let mut app = App::new();
    let rows: Vec<Rect> = (0..5).map(|i| Rect { x: 2, y: 4 + i, width: 76, height: 1 }).collect();
    app.set_ui_regions(UiRegions {
        home_tab: Rect { x: 2, y: 1, width: 4, height: 1 },
        task_tab: Rect { x: 7, y: 1, width: 4, height: 1 },
        settings_tab: Rect { x: 12, y: 1, width: 4, height: 1 },
        start_button: None,
        task_cancel_button: None,
        setting_rows: rows,
    });
    app.on_mouse_click(13, 1, 0);
    assert_eq!(app.active_tab(), Tab::Settings);
    match app.on_mouse_click(10, 6, 0) {
        Command::FetchServices(ListPurpose::Delete) => {}
        other => panic!("unexpected {:?}", other),
    }
    assert_eq!(app.selected_setting(), 2);
    assert!(matches!(app.on_mouse_click(50, 50, 0), Command::Idle));
    app.on_mouse_click(8, 1, 0);
    assert_eq!(app.active_tab(), Tab::Task);
}

#[test]
fn clicks_ignored_under_dialog() {
    let mut app = App::new();
    app.services_loaded(ListPurpose::View, Ok(vec![provider(1, "a")]));
    app.set_ui_regions(UiRegions {
        home_tab: Rect { x: 2, y: 1, width: 4, height: 1 },
        task_tab: Rect { x: 7, y: 1, width: 4, height: 1 },
        settings_tab: Rect { x: 12, y: 1, width: 4, height: 1 },
        start_button: None,
        task_cancel_button: None,
        setting_rows: Vec::new(),
    });
    assert!(matches!(app.on_mouse_click(8, 1, 0), Command::Idle));
    assert_eq!(app.active_tab(), Tab::Home);
}

#[test]
fn bridge_probe_is_rate_limited() {
    let mut app = App::new();
    assert!(matches!(app.poll_bridge_snapshot(0), Command::ProbeBridge));
    assert!(matches!(app.poll_bridge_snapshot(4999), Command::Idle));
    assert!(matches!(app.poll_bridge_snapshot(5000), Command::ProbeBridge));
    app.bridge_probed(Err("refused".to_string()));
    assert_eq!(app.status(), "bridge 健康检查失败: refused");
}

#[test]
fn log_keeps_last_three_hundred_lines() {
    let mut app = App::new();
    for i in 0..305 {
        app.push_bridge_log(format!("line {i}"));
    }
    let lines = app.task_page_lines();
    let n = lines.len();
    assert_eq!(&lines[n - 6..], &["line 299", "line 300", "line 301", "line 302", "line 303", "line 304"]);
}

#[test]
fn texts_for_lists_and_forms() {
    assert_eq!(service_line(&provider(7, "Acme")), "#7   Acme | m | https://u");
    assert_eq!(service_line(&provider(1234, "B")), "#1234 B | m | https://u");
    assert_eq!(settings_line_prefix(0), " 1. ");
    assert_eq!(form_line("API URL", "x"), "API URL: x");
    let items = settings_items();
    assert_eq!(items.len(), 5);
    assert_eq!(items[0], "查看服务商");
    assert_eq!(items[4], "配置");
}

#[test]
fn active_field_is_editable() {
    let mut form = AddServicePopup {
        provider_name: "a".to_string(),
        model_name: "b".to_string(),
        api_url: "c".to_string(),
        api_key: "d".to_string(),
        active_field: 2,
    };
    active_form_field_mut(&mut form).push('!');
    assert_eq!(form.api_url, "c!");
    form.active_field = 7;
    active_form_field_mut(&mut form).push('?');
    assert_eq!(form.api_key, "d?");
}

#[test]
fn task_page_shows_recent_events_and_logs_only() {
    let mut app = App::new();
    let events: Vec<PlannerEvent> = (0..10)
        .map(|i| PlannerEvent {
            seq: i,
            event_type: "t".to_string(),
            stage: "s".to_string(),
            message: format!("m{i}"),
            timestamp: "ts".to_string(),
        })
        .collect();
    app.task_events_loaded(Ok(events));
    app.task_events_loaded(Err("ignored".to_string()));
    for i in 0..10 {
        app.push_bridge_log(format!("log {i}"));
    }
    let lines = app.task_page_lines();
    assert_eq!(lines.len(), 22);
    assert_eq!(lines[1], "task_id: <暂无任务>");
    assert_eq!(lines[7], "#2 [t|s] ts | m2");
    assert_eq!(lines[14], "#9 [t|s] ts | m9");
    assert_eq!(lines[15], "实时Python日志(WS):");
    assert_eq!(lines[16], "log 4");
    assert!(lines.len() <= 23);
}

#[test]
fn blank_form_submitted_from_first_field_is_refused() {
    let mut app = App::new();
    app.on_key(Key::Left, 0);
    app.on_key(Key::Down, 0);
    app.on_key(Key::Enter, 0);
    assert!(matches!(app.submit_add_service(), Command::Idle));
    assert_eq!(app.status(), "请完整填写：服务商、模型、API URL、API Key");
    match app.popup() {
        Popup::AddService(f) => {
            assert_eq!(f.provider_name, "");
            assert_eq!(f.model_name, "gpt-4o-mini");
            assert_eq!(f.active_field, 0);
        }
        other => panic!("unexpected {:?}", other),
    }
}

#[test]
fn filled_form_submitted_from_any_field() {
    let mut app = App::new();
    app.on_key(Key::Left, 0);
    app.on_key(Key::Down, 0);
    app.on_key(Key::Enter, 0);
    type_text(&mut app, " Acme ");
    app.on_key(Key::Up, 0);
    type_text(&mut app, " key ");
    match app.submit_add_service() {
        Command::AddService(input) => {
            assert_eq!(input.provider_name, "Acme");
            assert_eq!(input.api_key, "key");
        }
        other => panic!("unexpected {:?}", other),
    }
    match app.popup() {
        Popup::AddService(f) => assert_eq!(f.active_field, 3),
        other => panic!("unexpected {:?}", other),
    }
    let mut closed = App::new();
    assert!(matches!(closed.submit_add_service(), Command::Idle));
    assert_eq!(closed.status(), "就绪：可使用键盘或鼠标操作");
}

#[test]
fn popup_keys_through_the_dialog_handler() {
    let mut app = App::new();
    app.services_loaded(ListPurpose::View, Ok(vec![provider(1, "a"), provider(2, "b")]));
    assert!(matches!(app.handle_popup_key(Key::Down), Command::Idle));
    assert!(matches!(app.handle_popup_key(Key::Down), Command::Idle));
    match app.popup() {
        Popup::ViewServices(p) => assert_eq!(p.selected, 1),
        other => panic!("unexpected {:?}", other),
    }
    app.handle_popup_key(Key::Up);
    app.handle_popup_key(Key::Up);
    match app.popup() {
        Popup::ViewServices(p) => assert_eq!(p.selected, 0),
        other => panic!("unexpected {:?}", other),
    }
}

#[test]
fn regions_of_each_page() {
    let screen = screen_layout(Rect { x: 0, y: 0, width: 80, height: 24 });
    assert!(ui_regions_fit(&screen, Tab::Home));
    let home = ui_regions(&screen, Tab::Home);
    assert_eq!(home.start_button, Some(Rect { x: 29, y: 13, width: 22, height: 3 }));
    assert!(home.task_cancel_button.is_none());
    assert!(home.setting_rows.is_empty());
    let task = ui_regions(&screen, Tab::Task);
    assert_eq!(task.task_cancel_button, Some(Rect { x: 1, y: 17, width: 18, height: 3 }));
    let settings = ui_regions(&screen, Tab::Settings);
    assert_eq!(settings.setting_rows.len(), 5);
    assert_eq!(settings.setting_rows[0], Rect { x: 2, y: 4, width: 76, height: 1 });
    assert_eq!(settings.home_tab, Rect { x: 2, y: 1, width: 4, height: 1 });
}

#[test]
fn provider_list_texts() {
    let empty = ServiceListPopup { items: Vec::new(), selected: 0 };
    assert_eq!(highlighted_row(&empty), None);
    let two = ServiceListPopup { items: vec![provider(1, "a"), provider(2, "b")], selected: 5 };
    assert_eq!(highlighted_row(&two), Some(1));
    assert_eq!(empty_list_text(true), "暂无可删除服务商（Esc关闭）");
    assert_eq!(empty_list_text(false), "暂无服务商记录（Esc关闭）");
    assert_eq!(list_hint(true), "Esc关闭 | ↑↓选择 | Enter删除");
    assert_eq!(list_hint(false), "Esc关闭 | ↑↓浏览");
    assert_eq!(settings_line_prefix(11), "12. ");
    assert_eq!(settings_line_prefix(99), "100. ");
}
