//! The terminal front end's state machine. Every key press, click, timer tick and reply
//! from outside is a transition on the state; the transition names the outside work
//! (a [`Command`]) that the caller performs and whose outcome it reports back.

use vstd::prelude::*;
use crate::layout::{
    bordered_inner_of, centered, clamped_rect, contains_cell, home_fits, home_layout,
    home_layout_fits, in_column, in_rect, min16, rows_fit, settings_layout, settings_row,
    settings_rows_fit, task_layout, Rect, ScreenLayout,
};
use crate::provider::{NewServiceProvider, ServiceProvider};
use crate::text::{
    char_is_control, concat_str, decimal, i64_to_decimal, is_blank, is_control, signed_decimal,
    str_equal, trim, trim_str, u64_to_decimal,
};

verus! {

/// The three pages of the interface.
#[derive(Debug, Clone, Copy, PartialEq, Eq, Structural)]
pub enum Tab {
    Home,
    Task,
    Settings,
}

/// The page to the right, wrapping around.
pub open spec fn tab_after(t: Tab) -> Tab {
    match t {
        Tab::Home => Tab::Task,
        Tab::Task => Tab::Settings,
        Tab::Settings => Tab::Home,
    }
}

/// The page to the left, wrapping around.
pub open spec fn tab_before(t: Tab) -> Tab {
    match t {
        Tab::Home => Tab::Settings,
        Tab::Task => Tab::Home,
        Tab::Settings => Tab::Task,
    }
}

/// A key press.
#[derive(Debug, Clone, Copy, PartialEq, Eq, Structural)]
pub enum Key {
    Char(char),
    Esc,
    Up,
    Down,
    Left,
    Right,
    Tab,
    Backspace,
    Enter,
    Other,
}

/// Number of entries on the settings page.
pub const SETTINGS_COUNT: usize = 5;

/// The label of a settings entry.
pub open spec fn settings_label(i: int) -> Seq<char> {
    if i == 0 {
        "查看服务商"@
    } else if i == 1 {
        "添加服务商"@
    } else if i == 2 {
        "删除服务商"@
    } else if i == 3 {
        "反馈问题"@
    } else {
        "配置"@
    }
}

/// The labels of the settings page, in order.
pub fn settings_items() -> (v: Vec<String>)
    ensures
        v@.len() == SETTINGS_COUNT,
        forall|i: int| 0 <= i < SETTINGS_COUNT ==> (#[trigger] v@[i])@ == settings_label(i),
{
    let mut v: Vec<String> = Vec::new();
    v.push(String::from_str("查看服务商"));
    v.push(String::from_str("添加服务商"));
    v.push(String::from_str("删除服务商"));
    v.push(String::from_str("反馈问题"));
    v.push(String::from_str("配置"));
    v
}

/// One progress event of a planner task.
#[derive(Debug)]
pub struct PlannerEvent {
    pub seq: i32,
    pub event_type: String,
    pub stage: String,
    pub message: String,
    pub timestamp: String,
}

/// The planner's answer to a submitted task.
#[derive(Debug)]
pub struct PlannerTaskSubmitResponse {
    pub task_id: String,
    pub status: String,
}

/// The planner's report on a task.
#[derive(Debug)]
pub struct PlannerTaskStatusResponse {
    pub status: String,
    pub stage: String,
    pub message: String,
    pub progress: u8,
    pub step_count: i32,
    pub max_steps: i32,
    pub error: Option<String>,
}

/// The planner's answer to a cancellation.
#[derive(Debug)]
pub struct PlannerTaskCancelResponse {
    pub task_id: String,
    pub cancelled: bool,
    pub status: String,
}

/// The clickable places drawn in the last frame.
#[derive(Debug)]
pub struct UiRegions {
    pub home_tab: Rect,
    pub task_tab: Rect,
    pub settings_tab: Rect,
    pub start_button: Option<Rect>,
    pub task_cancel_button: Option<Rect>,
    pub setting_rows: Vec<Rect>,
}

/// The clickable places, as values.
#[verifier::ext_equal]
pub struct RegionsView {
    pub home_tab: Rect,
    pub task_tab: Rect,
    pub settings_tab: Rect,
    pub start_button: Option<Rect>,
    pub task_cancel_button: Option<Rect>,
    pub setting_rows: Seq<Rect>,
}

impl View for UiRegions {
    type V = RegionsView;

    open spec fn view(&self) -> RegionsView {
        RegionsView {
            home_tab: self.home_tab,
            task_tab: self.task_tab,
            settings_tab: self.settings_tab,
            start_button: self.start_button,
            task_cancel_button: self.task_cancel_button,
            setting_rows: self.setting_rows@,
        }
    }
}

impl UiRegions {
    /// No clickable places (before the first frame).
    pub fn empty() -> (r: UiRegions)
        ensures
            r@ == (RegionsView {
                home_tab: Rect { x: 0, y: 0, width: 0, height: 0 },
                task_tab: Rect { x: 0, y: 0, width: 0, height: 0 },
                settings_tab: Rect { x: 0, y: 0, width: 0, height: 0 },
                start_button: None,
                task_cancel_button: None,
                setting_rows: Seq::empty(),
            }),
    {
        UiRegions {
            home_tab: Rect::zero(),
            task_tab: Rect::zero(),
            settings_tab: Rect::zero(),
            start_button: None,
            task_cancel_button: None,
            setting_rows: Vec::new(),
        }
    }
}

/// A list of providers with a highlighted row.
#[derive(Debug)]
pub struct ServiceListPopup {
    pub items: Vec<ServiceProvider>,
    pub selected: usize,
}

/// The form for a new provider; `active_field` (0 to 3) is the field being edited.
#[derive(Debug)]
pub struct AddServicePopup {
    pub provider_name: String,
    pub model_name: String,
    pub api_url: String,
    pub api_key: String,
    pub active_field: usize,
}

/// The dialog over the page, if any.
#[derive(Debug)]
pub enum Popup {
    Closed,
    ViewServices(ServiceListPopup),
    AddService(AddServicePopup),
    DeleteService(ServiceListPopup),
}

/// A dialog as values; a form's fields are, in order, provider name, model name, API URL and API key.
#[verifier::ext_equal]
pub enum PopupView {
    Closed,
    ViewServices(Seq<ServiceProvider>, nat),
    AddService(Seq<Seq<char>>, nat),
    DeleteService(Seq<ServiceProvider>, nat),
}

impl View for Popup {
    type V = PopupView;

    open spec fn view(&self) -> PopupView {
        match self {
            Popup::Closed => PopupView::Closed,
            Popup::ViewServices(p) => PopupView::ViewServices(p.items@, p.selected as nat),
            Popup::AddService(f) => PopupView::AddService(
                seq![f.provider_name@, f.model_name@, f.api_url@, f.api_key@],
                f.active_field as nat,
            ),
            Popup::DeleteService(p) => PopupView::DeleteService(p.items@, p.selected as nat),
        }
    }
}

/// Which dialog a provider list is fetched for.
#[derive(Debug, Clone, Copy, PartialEq, Eq, Structural)]
pub enum ListPurpose {
    View,
    Delete,
}

/// Outside work requested by a transition.
#[derive(Debug)]
pub enum Command {
    /// Nothing to do.
    Idle,
    /// Fetch the list of providers and report it with `services_loaded`.
    FetchServices(ListPurpose),
    /// Store this provider and report the new id with `service_added`.
    AddService(NewServiceProvider),
    /// Delete the provider with this id and report with `service_deleted`.
    DeleteService(i64),
    /// Submit this goal to the planner and report with `task_submitted`.
    SubmitTask { goal: String, max_steps: i32 },
    /// Fetch the named task's status and report with `task_status_loaded`.
    FetchTaskStatus(String),
    /// Fetch the named task's events and report with `task_events_loaded`.
    FetchTaskEvents(String),
    /// Ask the planner to cancel the named task and report with `task_cancelled`.
    CancelTask(String),
    /// Probe the bridge's health and report with `bridge_probed`.
    ProbeBridge,
}

/// Outside work, as values.
#[verifier::ext_equal]
pub enum Effect {
    Idle,
    FetchServices(ListPurpose),
    AddService(Seq<Seq<char>>),
    DeleteService(i64),
    SubmitTask(Seq<char>, i32),
    FetchTaskStatus(Seq<char>),
    FetchTaskEvents(Seq<char>),
    CancelTask(Seq<char>),
    ProbeBridge,
}

impl View for Command {
    type V = Effect;

    open spec fn view(&self) -> Effect {
        match self {
            Command::Idle => Effect::Idle,
            Command::FetchServices(p) => Effect::FetchServices(*p),
            Command::AddService(n) => Effect::AddService(
                seq![n.provider_name@, n.model_name@, n.api_url@, n.api_key@],
            ),
            Command::DeleteService(id) => Effect::DeleteService(*id),
            Command::SubmitTask { goal, max_steps } => Effect::SubmitTask(goal@, *max_steps),
            Command::FetchTaskStatus(id) => Effect::FetchTaskStatus(id@),
            Command::FetchTaskEvents(id) => Effect::FetchTaskEvents(id@),
            Command::CancelTask(id) => Effect::CancelTask(id@),
            Command::ProbeBridge => Effect::ProbeBridge,
        }
    }
}

/// The whole interface state, as values. Times are milliseconds on the caller's clock;
/// `None` for a last poll or probe means that one is due.
#[verifier::ext_equal]
pub struct AppView {
    pub running: bool,
    pub active_tab: Tab,
    pub status: Seq<char>,
    pub selected_setting: nat,
    pub popup: PopupView,
    pub input: Seq<char>,
    pub task_id: Option<Seq<char>>,
    pub task_status: Seq<char>,
    pub task_stage: Seq<char>,
    pub task_message: Seq<char>,
    pub task_progress: u8,
    pub task_step_count: i32,
    pub task_max_steps: i32,
    pub task_error: Seq<char>,
    pub task_events: Seq<PlannerEvent>,
    pub last_task_poll: Option<u64>,
    pub last_bridge_probe: Option<u64>,
    pub bridge_logs: Seq<Seq<char>>,
    pub regions: RegionsView,
}

/// The state with a new status line.
pub open spec fn with_status(v: AppView, s: Seq<char>) -> AppView {
    AppView { status: s, ..v }
}

/// Whether a periodic job last run at `last` is due again at `now`.
pub open spec fn due(last: Option<u64>, now: u64, period: u64) -> bool {
    match last {
        None => true,
        Some(t) => now >= t + period,
    }
}

/// The blank add-provider form with its suggested model and URL.
pub open spec fn blank_form() -> PopupView {
    PopupView::AddService(seq![Seq::empty(), "gpt-4o-mini"@, "https://api.example.com/v1"@, Seq::empty()], 0)
}

/// Choosing a settings entry: the first and third fetch providers for their dialog, the
/// second opens the blank form, the others only report the chosen label.
pub open spec fn settings_step(v: AppView) -> (AppView, Effect) {
    let i = v.selected_setting;
    if i == 0 {
        (v, Effect::FetchServices(ListPurpose::View))
    } else if i == 1 {
        (AppView { popup: blank_form(), status: "已打开：添加服务商（请填写表单）"@, ..v }, Effect::Idle)
    } else if i == 2 {
        (v, Effect::FetchServices(ListPurpose::Delete))
    } else {
        (with_status(v, "设置动作："@ + settings_label(i as int)), Effect::Idle)
    }
}

/// Starting the task typed on the home page: refused with a hint when blank, otherwise
/// the trimmed text is submitted with a budget of twelve steps.
pub open spec fn start_task_step(v: AppView) -> (AppView, Effect) {
    if trim(v.input).len() == 0 {
        (with_status(v, "请先输入任务需求"@), Effect::Idle)
    } else {
        (v, Effect::SubmitTask(trim(v.input), 12))
    }
}

/// Polling the current task: at most every half second, and only when there is one.
pub open spec fn poll_task_step(v: AppView, now: u64) -> (AppView, Effect) {
    match v.task_id {
        None => (v, Effect::Idle),
        Some(id) => if due(v.last_task_poll, now, 500) {
            (AppView { last_task_poll: Some(now), ..v }, Effect::FetchTaskStatus(id))
        } else {
            (v, Effect::Idle)
        },
    }
}

/// What Enter (or a click on the page's button) does on each page.
pub open spec fn activate_step(v: AppView, now: u64) -> (AppView, Effect) {
    match v.active_tab {
        Tab::Home => start_task_step(v),
        Tab::Task => poll_task_step(v, now),
        Tab::Settings => settings_step(v),
    }
}

/// Cancelling the current task, or reporting that there is none.
pub open spec fn cancel_step(v: AppView) -> (AppView, Effect) {
    match v.task_id {
        None => (with_status(v, "暂无可取消任务"@), Effect::Idle),
        Some(id) => (v, Effect::CancelTask(id)),
    }
}

/// Submitting the form: refused while any field is blank, otherwise the trimmed fields are stored.
pub open spec fn submit_form_step(v: AppView, fields: Seq<Seq<char>>) -> (AppView, Effect) {
    if exists|i: int| 0 <= i < 4 && trim(#[trigger] fields[i]).len() == 0 {
        (with_status(v, "请完整填写：服务商、模型、API URL、API Key"@), Effect::Idle)
    } else {
        (v, Effect::AddService(seq![trim(fields[0]), trim(fields[1]), trim(fields[2]), trim(fields[3])]))
    }
}

/// Submitting the open form, if any.
pub open spec fn submit_step(v: AppView) -> (AppView, Effect) {
    match v.popup {
        PopupView::AddService(fields, _) => submit_form_step(v, fields),
        _ => (v, Effect::Idle),
    }
}

/// Moving the highlight of a list one row up, stopping at the first row.
pub open spec fn list_up(items: Seq<ServiceProvider>, sel: nat) -> nat {
    if items.len() > 0 && sel > 0 { (sel - 1) as nat } else { sel }
}

/// Moving the highlight of a list one row down, stopping at the last row.
pub open spec fn list_down(items: Seq<ServiceProvider>, sel: nat) -> nat {
    if items.len() > 0 {
        if sel + 1 < items.len() { sel + 1 } else { (items.len() - 1) as nat }
    } else {
        sel
    }
}

/// A character with the last one removed, if any (as `String::pop` leaves it).
pub open spec fn without_last(s: Seq<char>) -> Seq<char> {
    if s.len() > 0 { s.drop_last() } else { s }
}

/// A key press while a dialog is open. Every key is taken by the dialog.
pub open spec fn popup_key_step(v: AppView, key: Key) -> (AppView, Effect) {
    match v.popup {
        PopupView::Closed => (v, Effect::Idle),
        PopupView::ViewServices(items, sel) => {
            if key == Key::Esc || key == Key::Enter {
                (AppView { popup: PopupView::Closed, ..v }, Effect::Idle)
            } else if key == Key::Up {
                (AppView { popup: PopupView::ViewServices(items, list_up(items, sel)), ..v }, Effect::Idle)
            } else if key == Key::Down {
                (AppView { popup: PopupView::ViewServices(items, list_down(items, sel)), ..v }, Effect::Idle)
            } else {
                (v, Effect::Idle)
            }
        },
        PopupView::DeleteService(items, sel) => {
            if key == Key::Esc {
                (AppView { popup: PopupView::Closed, ..v }, Effect::Idle)
            } else if key == Key::Up {
                (AppView { popup: PopupView::DeleteService(items, list_up(items, sel)), ..v }, Effect::Idle)
            } else if key == Key::Down {
                (AppView { popup: PopupView::DeleteService(items, list_down(items, sel)), ..v }, Effect::Idle)
            } else if key == Key::Enter && sel < items.len() {
                (v, Effect::DeleteService(items[sel as int].id))
            } else {
                (v, Effect::Idle)
            }
        },
        PopupView::AddService(fields, af) => {
            if key == Key::Esc {
                (AppView { popup: PopupView::Closed, ..v }, Effect::Idle)
            } else if key == Key::Tab || key == Key::Down {
                (AppView { popup: PopupView::AddService(fields, (af + 1) % 4), ..v }, Effect::Idle)
            } else if key == Key::Up {
                (AppView { popup: PopupView::AddService(fields, if af == 0 { 3 } else { (af - 1) as nat }), ..v }, Effect::Idle)
            } else if key == Key::Backspace {
                (AppView { popup: PopupView::AddService(fields.update(af as int, without_last(fields[af as int])), af), ..v }, Effect::Idle)
            } else if key == Key::Enter {
                if af < 3 {
                    (AppView { popup: PopupView::AddService(fields, af + 1), ..v }, Effect::Idle)
                } else {
                    submit_form_step(v, fields)
                }
            } else {
                match key {
                    Key::Char(c) => if !is_control(c) {
                        (AppView { popup: PopupView::AddService(fields.update(af as int, fields[af as int].push(c)), af), ..v }, Effect::Idle)
                    } else {
                        (v, Effect::Idle)
                    },
                    _ => (v, Effect::Idle),
                }
            }
        },
    }
}

/// A key press. With a dialog open the dialog takes it; otherwise `q` and Esc quit, the
/// arrows and Tab move between pages (and between settings entries), typing edits the
/// home page's input, and Enter activates the page.
pub open spec fn key_step(v: AppView, key: Key, now: u64) -> (AppView, Effect) {
    if !(v.popup is Closed) {
        popup_key_step(v, key)
    } else if key == Key::Char('q') || key == Key::Esc {
        (AppView { running: false, ..v }, Effect::Idle)
    } else if key == Key::Left {
        (AppView { active_tab: tab_before(v.active_tab), ..v }, Effect::Idle)
    } else if key == Key::Right || key == Key::Tab {
        (AppView { active_tab: tab_after(v.active_tab), ..v }, Effect::Idle)
    } else if key == Key::Up {
        if v.active_tab == Tab::Settings {
            (AppView { selected_setting: if v.selected_setting == 0 { 4 } else { (v.selected_setting - 1) as nat }, ..v }, Effect::Idle)
        } else {
            (v, Effect::Idle)
        }
    } else if key == Key::Down {
        if v.active_tab == Tab::Settings {
            (AppView { selected_setting: (v.selected_setting + 1) % 5, ..v }, Effect::Idle)
        } else {
            (v, Effect::Idle)
        }
    } else if key == Key::Backspace {
        if v.active_tab == Tab::Home {
            (AppView { input: without_last(v.input), ..v }, Effect::Idle)
        } else {
            (v, Effect::Idle)
        }
    } else if key == Key::Enter {
        activate_step(v, now)
    } else {
        match key {
            Key::Char(c) => if v.active_tab == Tab::Home && !is_control(c) {
                (AppView { input: v.input.push(c), ..v }, Effect::Idle)
            } else {
                (v, Effect::Idle)
            },
            _ => (v, Effect::Idle),
        }
    }
}

/// The first settings row containing the cell, or the number of rows when none does.
pub open spec fn first_hit(rows: Seq<Rect>, x: u16, y: u16) -> int
    decreases rows.len(),
{
    if rows.len() == 0 {
        0
    } else if contains_cell(rows[0], x, y) {
        0
    } else {
        1 + first_hit(rows.drop_first(), x, y)
    }
}

/// A left click. Ignored while a dialog is open; a click on a tab switches to it; on the
/// home page the start button starts the task, on the task page the cancel button cancels
/// it, and on the settings page a click on an entry selects and activates it.
pub open spec fn click_step(v: AppView, x: u16, y: u16, now: u64) -> (AppView, Effect) {
    let r = v.regions;
    if !(v.popup is Closed) {
        (v, Effect::Idle)
    } else if contains_cell(r.home_tab, x, y) {
        (AppView { active_tab: Tab::Home, ..v }, Effect::Idle)
    } else if contains_cell(r.task_tab, x, y) {
        (AppView { active_tab: Tab::Task, ..v }, Effect::Idle)
    } else if contains_cell(r.settings_tab, x, y) {
        (AppView { active_tab: Tab::Settings, ..v }, Effect::Idle)
    } else {
        match v.active_tab {
            Tab::Home => match r.start_button {
                Some(b) => if contains_cell(b, x, y) { activate_step(v, now) } else { (v, Effect::Idle) },
                None => (v, Effect::Idle),
            },
            Tab::Task => match r.task_cancel_button {
                Some(b) => if contains_cell(b, x, y) { cancel_step(v) } else { (v, Effect::Idle) },
                None => (v, Effect::Idle),
            },
            Tab::Settings => {
                let i = first_hit(r.setting_rows, x, y);
                if i < r.setting_rows.len() {
                    activate_step(AppView { selected_setting: i as nat, ..v }, now)
                } else {
                    (v, Effect::Idle)
                }
            },
        }
    }
}

/// The reply to a provider-list fetch: the dialog opens on the first row, or the status
/// line reports the failure.
pub open spec fn services_loaded_step(v: AppView, purpose: ListPurpose, r: Result<Vec<ServiceProvider>, String>) -> AppView {
    match r {
        Ok(items) => match purpose {
            ListPurpose::View => AppView { popup: PopupView::ViewServices(items@, 0), status: "已打开：查看服务商"@, ..v },
            ListPurpose::Delete => AppView { popup: PopupView::DeleteService(items@, 0), status: "已打开：删除服务商"@, ..v },
        },
        Err(e) => match purpose {
            ListPurpose::View => with_status(v, "查看服务商失败: "@ + e@),
            ListPurpose::Delete => with_status(v, "读取服务商失败: "@ + e@),
        },
    }
}

/// The reply to storing a provider: the form closes and the new id is shown, or the
/// failure is reported with the form left open.
pub open spec fn service_added_step(v: AppView, r: Result<i64, String>) -> AppView {
    match r {
        Ok(id) => AppView { popup: PopupView::Closed, status: "已添加服务商，id="@ + signed_decimal(id as int), ..v },
        Err(e) => with_status(v, "添加服务商失败: "@ + e@),
    }
}

/// The reply to a deletion: after a successful one the list is fetched again.
pub open spec fn service_deleted_step(v: AppView, id: i64, r: Result<bool, String>) -> (AppView, Effect) {
    match r {
        Ok(deleted) => if deleted {
            (with_status(v, "已删除服务商，id="@ + signed_decimal(id as int)), Effect::FetchServices(ListPurpose::Delete))
        } else {
            (with_status(v, "删除失败，未找到 id="@ + signed_decimal(id as int)), Effect::Idle)
        },
        Err(e) => (with_status(v, "删除服务商失败: "@ + e@), Effect::Idle),
    }
}

/// The reply to a submission: an accepted task becomes the current task, its progress
/// is reset, a poll becomes due and the task page is shown; anything else is reported.
pub open spec fn task_submitted_step(v: AppView, r: Result<PlannerTaskSubmitResponse, String>) -> AppView {
    match r {
        Ok(resp) => if resp.status@ == "accepted"@ {
            AppView {
                task_id: Some(resp.task_id@),
                task_status: "pending"@,
                task_stage: "queued"@,
                task_message: "任务已提交，等待 bridge 执行"@,
                task_progress: 0,
                task_step_count: 0,
                task_max_steps: 12,
                task_error: Seq::empty(),
                task_events: Seq::empty(),
                last_task_poll: None,
                active_tab: Tab::Task,
                status: "任务已提交，task_id="@ + resp.task_id@,
                ..v
            }
        } else {
            with_status(v, "任务提交失败：后端状态="@ + resp.status@)
        },
        Err(e) => with_status(v, "任务提交失败: "@ + e@),
    }
}

/// Whether a task status is final.
pub open spec fn is_finished_status(s: Seq<char>) -> bool {
    s == "success"@ || s == "failed"@ || s == "cancelled"@ || s == "timeout"@
}

/// The status line after a task report: the finishing message for a finished task that
/// has one, otherwise status, stage and progress.
pub open spec fn task_report_line(t: PlannerTaskStatusResponse) -> Seq<char> {
    if is_finished_status(t.status@) && t.message@.len() > 0 {
        "任务结束："@ + t.status@ + "（"@ + t.message@ + "）"@
    } else {
        "任务状态："@ + t.status@ + " | 阶段："@ + t.stage@ + " | "@ + decimal(t.progress as nat) + "%"@
    }
}

/// The reply to a status fetch: the task's fields are taken over and its events are
/// fetched next; a failure is reported.
pub open spec fn task_status_step(v: AppView, r: Result<PlannerTaskStatusResponse, String>) -> (AppView, Effect) {
    match r {
        Ok(t) => (
            AppView {
                task_status: t.status@,
                task_stage: t.stage@,
                task_message: t.message@,
                task_progress: t.progress,
                task_step_count: t.step_count,
                task_max_steps: t.max_steps,
                task_error: match t.error {
                    Some(e) => e@,
                    None => Seq::empty(),
                },
                status: task_report_line(t),
                ..v
            },
            match v.task_id {
                Some(id) => Effect::FetchTaskEvents(id),
                None => Effect::Idle,
            },
        ),
        Err(e) => (with_status(v, "任务状态拉取失败: "@ + e@), Effect::Idle),
    }
}

/// The reply to an events fetch: the events replace the shown ones; a failure changes nothing.
pub open spec fn task_events_step(v: AppView, r: Result<Vec<PlannerEvent>, String>) -> AppView {
    match r {
        Ok(events) => AppView { task_events: events@, ..v },
        Err(_) => v,
    }
}

/// The reply to a cancellation.
pub open spec fn task_cancelled_step(v: AppView, r: Result<PlannerTaskCancelResponse, String>) -> AppView {
    match r {
        Ok(resp) => if resp.cancelled {
            AppView { task_status: resp.status@, status: "已发送取消请求，task_id="@ + resp.task_id@, ..v }
        } else {
            with_status(v, "取消失败，后端状态="@ + resp.status@)
        },
        Err(e) => with_status(v, "取消任务失败: "@ + e@),
    }
}

/// Probing the bridge: at most every five seconds.
pub open spec fn bridge_probe_step(v: AppView, now: u64) -> (AppView, Effect) {
    if due(v.last_bridge_probe, now, 5000) {
        (AppView { last_bridge_probe: Some(now), ..v }, Effect::ProbeBridge)
    } else {
        (v, Effect::Idle)
    }
}

/// The reply to a probe: only a failure is reported.
pub open spec fn bridge_probed_step(v: AppView, r: Result<(), String>) -> AppView {
    match r {
        Ok(_) => v,
        Err(e) => with_status(v, "bridge 健康检查失败: "@ + e@),
    }
}

/// Most log lines kept.
pub open spec fn log_capacity() -> nat {
    300
}

/// Appending a log line, keeping only the most recent lines.
pub open spec fn log_step(v: AppView, line: Seq<char>) -> AppView {
    let logs = v.bridge_logs.push(line);
    AppView {
        bridge_logs: if logs.len() > log_capacity() { logs.skip(logs.len() - log_capacity()) } else { logs },
        ..v
    }
}

/// The state when the interface starts: the home page, nothing running, a poll of the
/// (absent) task considered just done and a bridge probe due.
pub open spec fn initial_view() -> AppView {
    AppView {
        running: true,
        active_tab: Tab::Home,
        status: "就绪：可使用键盘或鼠标操作"@,
        selected_setting: 0,
        popup: PopupView::Closed,
        input: Seq::empty(),
        task_id: None,
        task_status: "idle"@,
        task_stage: "queued"@,
        task_message: "等待任务开始"@,
        task_progress: 0,
        task_step_count: 0,
        task_max_steps: 0,
        task_error: Seq::empty(),
        task_events: Seq::empty(),
        last_task_poll: Some(0),
        last_bridge_probe: None,
        bridge_logs: Seq::empty(),
        regions: RegionsView {
            home_tab: Rect { x: 0, y: 0, width: 0, height: 0 },
            task_tab: Rect { x: 0, y: 0, width: 0, height: 0 },
            settings_tab: Rect { x: 0, y: 0, width: 0, height: 0 },
            start_button: None,
            task_cancel_button: None,
            setting_rows: Seq::empty(),
        },
    }
}

/// The field of the form with this index: provider name, model name, API URL, then the
/// API key for every later index.
pub open spec fn form_field(form: AddServicePopup, i: int) -> String {
    if i == 0 {
        form.provider_name
    } else if i == 1 {
        form.model_name
    } else if i == 2 {
        form.api_url
    } else {
        form.api_key
    }
}

/// The form with the field of this index replaced.
pub open spec fn with_form_field(form: AddServicePopup, i: int, s: String) -> AddServicePopup {
    if i == 0 {
        AddServicePopup { provider_name: s, ..form }
    } else if i == 1 {
        AddServicePopup { model_name: s, ..form }
    } else if i == 2 {
        AddServicePopup { api_url: s, ..form }
    } else {
        AddServicePopup { api_key: s, ..form }
    }
}

/// The field of the form that is being edited.
pub fn active_form_field_mut(form: &mut AddServicePopup) -> (f: &mut String)
    ensures
        *f == form_field(*old(form), old(form).active_field as int),
        *final(form) == with_form_field(*old(form), old(form).active_field as int, *final(f)),
{
    match form.active_field {
        0 => &mut form.provider_name,
        1 => &mut form.model_name,
        2 => &mut form.api_url,
        _ => &mut form.api_key,
    }
}

/// Whether a dialog's highlight or edited field is in range.
pub open spec fn popup_ok(p: Popup) -> bool {
    match p {
        Popup::Closed => true,
        Popup::ViewServices(l) => l.selected == 0 || l.selected < l.items@.len(),
        Popup::DeleteService(l) => l.selected == 0 || l.selected < l.items@.len(),
        Popup::AddService(f) => f.active_field < 4,
    }
}

/// The interface state.
pub struct App {
    running: bool,
    active_tab: Tab,
    status: String,
    selected_setting: usize,
    ui_regions: UiRegions,
    popup: Popup,
    home_intro_input: String,
    current_task_id: Option<String>,
    task_status: String,
    task_stage: String,
    task_message: String,
    task_progress: u8,
    task_step_count: i32,
    task_max_steps: i32,
    task_error: String,
    task_events: Vec<PlannerEvent>,
    last_task_poll_ms: Option<u64>,
    last_bridge_probe_ms: Option<u64>,
    bridge_logs: Vec<String>,
}

impl View for App {
    type V = AppView;

    closed spec fn view(&self) -> AppView {
        AppView {
            running: self.running,
            active_tab: self.active_tab,
            status: self.status@,
            selected_setting: self.selected_setting as nat,
            popup: self.popup@,
            input: self.home_intro_input@,
            task_id: match self.current_task_id {
                Some(id) => Some(id@),
                None => None,
            },
            task_status: self.task_status@,
            task_stage: self.task_stage@,
            task_message: self.task_message@,
            task_progress: self.task_progress,
            task_step_count: self.task_step_count,
            task_max_steps: self.task_max_steps,
            task_error: self.task_error@,
            task_events: self.task_events@,
            last_task_poll: self.last_task_poll_ms,
            last_bridge_probe: self.last_bridge_probe_ms,
            bridge_logs: self.bridge_logs@.map_values(|l: String| l@),
            regions: self.ui_regions@,
        }
    }
}

impl App {
    #[verifier::type_invariant]
    spec fn wf(self) -> bool {
        &&& self.selected_setting < 5
        &&& popup_ok(self.popup)
        &&& self.ui_regions.setting_rows@.len() <= 5
        &&& self.bridge_logs@.len() <= 300
    }

    /// The interface as it starts.
    pub fn new() -> (a: App)
        ensures
            a@ == initial_view(),
    {
        let a = App {
            running: true,
            active_tab: Tab::Home,
            status: String::from_str("就绪：可使用键盘或鼠标操作"),
            selected_setting: 0,
            ui_regions: UiRegions::empty(),
            popup: Popup::Closed,
            home_intro_input: String::new(),
            current_task_id: None,
            task_status: String::from_str("idle"),
            task_stage: String::from_str("queued"),
            task_message: String::from_str("等待任务开始"),
            task_progress: 0,
            task_step_count: 0,
            task_max_steps: 0,
            task_error: String::new(),
            task_events: Vec::new(),
            last_task_poll_ms: Some(0),
            last_bridge_probe_ms: None,
            bridge_logs: Vec::new(),
        };
        assert(a@.bridge_logs =~= Seq::<Seq<char>>::empty());
        a
    }

    fn set_status(&mut self, s: String)
        ensures
            final(self)@ == with_status(old(self)@, s@),
    {
        proof {
            use_type_invariant(&*self);
        }
        self.status = s;
    }

    /// Switches to the page on the right.
    pub fn next_tab(&mut self)
        ensures
            final(self)@ == (AppView { active_tab: tab_after(old(self)@.active_tab), ..old(self)@ }),
    {
        proof {
            use_type_invariant(&*self);
        }
        self.active_tab = match self.active_tab {
            Tab::Home => Tab::Task,
            Tab::Task => Tab::Settings,
            Tab::Settings => Tab::Home,
        };
    }

    /// Switches to the page on the left.
    pub fn prev_tab(&mut self)
        ensures
            final(self)@ == (AppView { active_tab: tab_before(old(self)@.active_tab), ..old(self)@ }),
    {
        proof {
            use_type_invariant(&*self);
        }
        self.active_tab = match self.active_tab {
            Tab::Home => Tab::Settings,
            Tab::Task => Tab::Home,
            Tab::Settings => Tab::Task,
        };
    }

    /// Selects the previous settings entry, wrapping to the last.
    pub fn prev_setting(&mut self)
        ensures
            final(self)@ == (AppView {
                selected_setting: if old(self)@.selected_setting == 0 { 4 } else { (old(self)@.selected_setting - 1) as nat },
                ..old(self)@
            }),
    {
        proof {
            use_type_invariant(&*self);
        }
        self.selected_setting = if self.selected_setting == 0 {
            SETTINGS_COUNT - 1
        } else {
            self.selected_setting - 1
        };
    }

    /// Selects the next settings entry, wrapping to the first.
    pub fn next_setting(&mut self)
        ensures
            final(self)@ == (AppView { selected_setting: (old(self)@.selected_setting + 1) % 5, ..old(self)@ }),
    {
        proof {
            use_type_invariant(&*self);
        }
        self.selected_setting = (self.selected_setting + 1) % SETTINGS_COUNT;
    }

    /// Carries out the selected settings entry.
    fn handle_settings_action(&mut self) -> (c: Command)
        ensures
            final(self)@ == settings_step(old(self)@).0,
            c@ == settings_step(old(self)@).1,
    {
        proof {
            use_type_invariant(&*self);
        }
        if self.selected_setting == 0 {
            Command::FetchServices(ListPurpose::View)
        } else if self.selected_setting == 1 {
            self.popup = Popup::AddService(
                AddServicePopup {
                    provider_name: String::new(),
                    model_name: String::from_str("gpt-4o-mini"),
                    api_url: String::from_str("https://api.example.com/v1"),
                    api_key: String::new(),
                    active_field: 0,
                },
            );
            self.status = String::from_str("已打开：添加服务商（请填写表单）");
            assert(self@.popup =~= blank_form());
            Command::Idle
        } else if self.selected_setting == 2 {
            Command::FetchServices(ListPurpose::Delete)
        } else {
            let items = settings_items();
            let status = concat_str("设置动作：", items[self.selected_setting].as_str());
            self.status = status;
            Command::Idle
        }
    }

    /// Submits the home page's input as a task.
    fn start_home_task(&mut self) -> (c: Command)
        ensures
            final(self)@ == start_task_step(old(self)@).0,
            c@ == start_task_step(old(self)@).1,
    {
        proof {
            use_type_invariant(&*self);
        }
        let requirement = trim_str(self.home_intro_input.as_str());
        if requirement.as_str().is_empty() {
            self.status = String::from_str("请先输入任务需求");
            return Command::Idle;
        }
        Command::SubmitTask { goal: requirement, max_steps: 12 }
    }

    /// Asks for the current task's status when a poll is due.
    pub fn poll_task_updates(&mut self, now_ms: u64) -> (c: Command)
        ensures
            final(self)@ == poll_task_step(old(self)@, now_ms).0,
            c@ == poll_task_step(old(self)@, now_ms).1,
    {
        proof {
            use_type_invariant(&*self);
        }
        let task_id = match &self.current_task_id {
            Some(id) => id.clone(),
            None => {
                return Command::Idle;
            },
        };
        let is_due = match self.last_task_poll_ms {
            None => true,
            Some(t) => now_ms >= t && now_ms - t >= 500,
        };
        if !is_due {
            return Command::Idle;
        }
        self.last_task_poll_ms = Some(now_ms);
        Command::FetchTaskStatus(task_id)
    }

    /// Asks for a bridge health probe when one is due.
    pub fn poll_bridge_snapshot(&mut self, now_ms: u64) -> (c: Command)
        ensures
            final(self)@ == bridge_probe_step(old(self)@, now_ms).0,
            c@ == bridge_probe_step(old(self)@, now_ms).1,
    {
        proof {
            use_type_invariant(&*self);
        }
        let is_due = match self.last_bridge_probe_ms {
            None => true,
            Some(t) => now_ms >= t && now_ms - t >= 5000,
        };
        if !is_due {
            return Command::Idle;
        }
        self.last_bridge_probe_ms = Some(now_ms);
        Command::ProbeBridge
    }

    /// What Enter does on the current page.
    pub fn activate_current(&mut self, now_ms: u64) -> (c: Command)
        ensures
            final(self)@ == activate_step(old(self)@, now_ms).0,
            c@ == activate_step(old(self)@, now_ms).1,
    {
        match self.active_tab {
            Tab::Home => self.start_home_task(),
            Tab::Task => self.poll_task_updates(now_ms),
            Tab::Settings => self.handle_settings_action(),
        }
    }

    /// Cancels the current task, or reports that there is none.
    pub fn cancel_current_task(&mut self) -> (c: Command)
        ensures
            final(self)@ == cancel_step(old(self)@).0,
            c@ == cancel_step(old(self)@).1,
    {
        proof {
            use_type_invariant(&*self);
        }
        match &self.current_task_id {
            Some(id) => Command::CancelTask(id.clone()),
            None => {
                self.status = String::from_str("暂无可取消任务");
                Command::Idle
            },
        }
    }

    /// Submits `form`, which was taken out of the dialog slot and is put back.
    fn submit_form(&mut self, form: AddServicePopup) -> (c: Command)
        requires
            old(self)@.popup is Closed,
            form.active_field < 4,
        ensures
            final(self)@ == submit_form_step(
                AppView { popup: PopupView::AddService(seq![form.provider_name@, form.model_name@, form.api_url@, form.api_key@], form.active_field as nat), ..old(self)@ },
                seq![form.provider_name@, form.model_name@, form.api_url@, form.api_key@],
            ).0,
            c@ == submit_form_step(
                AppView { popup: PopupView::AddService(seq![form.provider_name@, form.model_name@, form.api_url@, form.api_key@], form.active_field as nat), ..old(self)@ },
                seq![form.provider_name@, form.model_name@, form.api_url@, form.api_key@],
            ).1,
    {
        proof {
            use_type_invariant(&*self);
        }
        let ghost fields = seq![form.provider_name@, form.model_name@, form.api_url@, form.api_key@];
        let blank = is_blank(form.provider_name.as_str()) || is_blank(form.model_name.as_str())
            || is_blank(form.api_url.as_str()) || is_blank(form.api_key.as_str());
        proof {
            if blank {
                if trim(fields[0]).len() == 0 {
                } else if trim(fields[1]).len() == 0 {
                } else if trim(fields[2]).len() == 0 {
                } else {
                    assert(trim(fields[3]).len() == 0);
                }
            } else {
                assert forall|i: int| 0 <= i < 4 implies trim(#[trigger] fields[i]).len() != 0 by {
                    if i == 0 {
                    } else if i == 1 {
                    } else if i == 2 {
                    } else {
                    }
                }
            }
        }
        if blank {
            self.popup = Popup::AddService(form);
            self.status = String::from_str("请完整填写：服务商、模型、API URL、API Key");
            return Command::Idle;
        }
        let input = NewServiceProvider {
            provider_name: trim_str(form.provider_name.as_str()),
            model_name: trim_str(form.model_name.as_str()),
            api_url: trim_str(form.api_url.as_str()),
            api_key: trim_str(form.api_key.as_str()),
        };
        self.popup = Popup::AddService(form);
        let c = Command::AddService(input);
        assert(c@ =~= Effect::AddService(seq![trim(fields[0]), trim(fields[1]), trim(fields[2]), trim(fields[3])]));
        c
    }

    /// Submits the add-provider form, whichever field is being edited; does nothing when
    /// no form is open.
    pub fn submit_add_service(&mut self) -> (c: Command)
        ensures
            final(self)@ == submit_step(old(self)@).0,
            c@ == submit_step(old(self)@).1,
    {
        proof {
            use_type_invariant(&*self);
        }
        let mut popup = Popup::Closed;
        std::mem::swap(&mut self.popup, &mut popup);
        match popup {
            Popup::AddService(form) => self.submit_form(form),
            other => {
                self.popup = other;
                Command::Idle
            },
        }
    }

    /// A key press while a dialog is open.
    pub fn handle_popup_key(&mut self, key: Key) -> (c: Command)
        ensures
            final(self)@ == popup_key_step(old(self)@, key).0,
            c@ == popup_key_step(old(self)@, key).1,
    {
        proof {
            use_type_invariant(&*self);
        }
        let ghost v = self@;
        let mut popup = Popup::Closed;
        std::mem::swap(&mut self.popup, &mut popup);
        assert(self@ == AppView { popup: PopupView::Closed, ..v });
        match popup {
            Popup::Closed => Command::Idle,
            Popup::ViewServices(mut state) => {
                match key {
                    Key::Esc | Key::Enter => {},
                    Key::Up => {
                        if state.items.len() > 0 && state.selected > 0 {
                            state.selected = state.selected - 1;
                        }
                        self.popup = Popup::ViewServices(state);
                    },
                    Key::Down => {
                        if state.items.len() > 0 {
                            state.selected = if state.selected + 1 < state.items.len() {
                                state.selected + 1
                            } else {
                                state.items.len() - 1
                            };
                        }
                        self.popup = Popup::ViewServices(state);
                    },
                    _ => {
                        self.popup = Popup::ViewServices(state);
                    },
                }
                Command::Idle
            },
            Popup::DeleteService(mut state) => {
                match key {
                    Key::Esc => Command::Idle,
                    Key::Up => {
                        if state.items.len() > 0 && state.selected > 0 {
                            state.selected = state.selected - 1;
                        }
                        self.popup = Popup::DeleteService(state);
                        Command::Idle
                    },
                    Key::Down => {
                        if state.items.len() > 0 {
                            state.selected = if state.selected + 1 < state.items.len() {
                                state.selected + 1
                            } else {
                                state.items.len() - 1
                            };
                        }
                        self.popup = Popup::DeleteService(state);
                        Command::Idle
                    },
                    Key::Enter => {
                        let target = if state.selected < state.items.len() {
                            Some(state.items[state.selected].id)
                        } else {
                            None
                        };
                        self.popup = Popup::DeleteService(state);
                        match target {
                            Some(id) => Command::DeleteService(id),
                            None => Command::Idle,
                        }
                    },
                    _ => {
                        self.popup = Popup::DeleteService(state);
                        Command::Idle
                    },
                }
            },
            Popup::AddService(mut form) => {
                let ghost fields = seq![form.provider_name@, form.model_name@, form.api_url@, form.api_key@];
                match key {
                    Key::Esc => Command::Idle,
                    Key::Tab | Key::Down => {
                        form.active_field = (form.active_field + 1) % 4;
                        self.popup = Popup::AddService(form);
                        Command::Idle
                    },
                    Key::Up => {
                        form.active_field = if form.active_field == 0 {
                            3
                        } else {
                            form.active_field - 1
                        };
                        self.popup = Popup::AddService(form);
                        Command::Idle
                    },
                    Key::Backspace => {
                        let ghost af = form.active_field as int;
                        active_form_field_mut(&mut form).pop();
                        self.popup = Popup::AddService(form);
                        assert(self@.popup =~= PopupView::AddService(fields.update(af, without_last(fields[af])), af as nat));
                        Command::Idle
                    },
                    Key::Enter => {
                        if form.active_field < 3 {
                            form.active_field = form.active_field + 1;
                            self.popup = Popup::AddService(form);
                            Command::Idle
                        } else {
                            self.submit_form(form)
                        }
                    },
                    Key::Char(ch) => {
                        if !char_is_control(ch) {
                            let ghost af = form.active_field as int;
                            active_form_field_mut(&mut form).push(ch);
                            self.popup = Popup::AddService(form);
                            assert(self@.popup =~= PopupView::AddService(fields.update(af, fields[af].push(ch)), af as nat));
                        } else {
                            self.popup = Popup::AddService(form);
                        }
                        Command::Idle
                    },
                    _ => {
                        self.popup = Popup::AddService(form);
                        Command::Idle
                    },
                }
            },
        }
    }

    /// A key press.
    pub fn on_key(&mut self, key: Key, now_ms: u64) -> (c: Command)
        ensures
            final(self)@ == key_step(old(self)@, key, now_ms).0,
            c@ == key_step(old(self)@, key, now_ms).1,
    {
        proof {
            use_type_invariant(&*self);
        }
        if !matches!(self.popup, Popup::Closed) {
            return self.handle_popup_key(key);
        }
        match key {
            Key::Char('q') | Key::Esc => {
                self.running = false;
                Command::Idle
            },
            Key::Left => {
                self.prev_tab();
                Command::Idle
            },
            Key::Right | Key::Tab => {
                self.next_tab();
                Command::Idle
            },
            Key::Up => {
                if self.active_tab == Tab::Settings {
                    self.prev_setting();
                }
                Command::Idle
            },
            Key::Down => {
                if self.active_tab == Tab::Settings {
                    self.next_setting();
                }
                Command::Idle
            },
            Key::Backspace => {
                if self.active_tab == Tab::Home {
                    let mut input = String::new();
                    std::mem::swap(&mut self.home_intro_input, &mut input);
                    input.pop();
                    self.home_intro_input = input;
                }
                Command::Idle
            },
            Key::Char(ch) => {
                if self.active_tab == Tab::Home && !char_is_control(ch) {
                    let mut input = String::new();
                    std::mem::swap(&mut self.home_intro_input, &mut input);
                    input.push(ch);
                    self.home_intro_input = input;
                }
                Command::Idle
            },
            Key::Enter => self.activate_current(now_ms),
            Key::Other => Command::Idle,
        }
    }

    /// A left click on the cell `(x, y)`.
    pub fn on_mouse_click(&mut self, x: u16, y: u16, now_ms: u64) -> (c: Command)
        ensures
            final(self)@ == click_step(old(self)@, x, y, now_ms).0,
            c@ == click_step(old(self)@, x, y, now_ms).1,
    {
        proof {
            use_type_invariant(&*self);
        }
        if !matches!(self.popup, Popup::Closed) {
            return Command::Idle;
        }
        if in_rect(self.ui_regions.home_tab, x, y) {
            self.active_tab = Tab::Home;
            return Command::Idle;
        }
        if in_rect(self.ui_regions.task_tab, x, y) {
            self.active_tab = Tab::Task;
            return Command::Idle;
        }
        if in_rect(self.ui_regions.settings_tab, x, y) {
            self.active_tab = Tab::Settings;
            return Command::Idle;
        }
        match self.active_tab {
            Tab::Home => match self.ui_regions.start_button {
                Some(b) => if in_rect(b, x, y) {
                    self.activate_current(now_ms)
                } else {
                    Command::Idle
                },
                None => Command::Idle,
            },
            Tab::Task => match self.ui_regions.task_cancel_button {
                Some(b) => if in_rect(b, x, y) {
                    self.cancel_current_task()
                } else {
                    Command::Idle
                },
                None => Command::Idle,
            },
            Tab::Settings => {
                let ghost rows = self.ui_regions.setting_rows@;
                proof {
                    lemma_first_hit(rows, x, y);
                }
                let n = self.ui_regions.setting_rows.len();
                let mut idx: usize = 0;
                #[verifier::loop_isolation(false)]
                while idx < n
                    invariant
                        self@ == old(self)@,
                        self.selected_setting < 5,
                        popup_ok(self.popup),
                        self.bridge_logs@.len() <= 300,
                        rows == self.ui_regions.setting_rows@,
                        n == rows.len(),
                        n <= 5,
                        idx <= first_hit(rows, x, y) <= n,
                        first_hit(rows, x, y) < n ==> contains_cell(rows[first_hit(rows, x, y)], x, y),
                        forall|j: int| 0 <= j < first_hit(rows, x, y) ==> !contains_cell(#[trigger] rows[j], x, y),
                    decreases n - idx,
                {
                    if in_rect(self.ui_regions.setting_rows[idx], x, y) {
                        self.selected_setting = idx;
                        return self.activate_current(now_ms);
                    }
                    idx += 1;
                }
                Command::Idle
            },
        }
    }

    /// Records the clickable places of the frame just drawn.
    pub fn set_ui_regions(&mut self, regions: UiRegions)
        requires
            regions.setting_rows@.len() <= SETTINGS_COUNT,
        ensures
            final(self)@ == (AppView { regions: regions@, ..old(self)@ }),
    {
        proof {
            use_type_invariant(&*self);
        }
        self.ui_regions = regions;
    }

    /// Takes the reply to a provider-list fetch.
    pub fn services_loaded(&mut self, purpose: ListPurpose, result: Result<Vec<ServiceProvider>, String>)
        ensures
            final(self)@ == services_loaded_step(old(self)@, purpose, result),
    {
        proof {
            use_type_invariant(&*self);
        }
        match result {
            Ok(items) => match purpose {
                ListPurpose::View => {
                    self.popup = Popup::ViewServices(ServiceListPopup { items, selected: 0 });
                    self.status = String::from_str("已打开：查看服务商");
                },
                ListPurpose::Delete => {
                    self.popup = Popup::DeleteService(ServiceListPopup { items, selected: 0 });
                    self.status = String::from_str("已打开：删除服务商");
                },
            },
            Err(e) => match purpose {
                ListPurpose::View => {
                    self.status = concat_str("查看服务商失败: ", e.as_str());
                },
                ListPurpose::Delete => {
                    self.status = concat_str("读取服务商失败: ", e.as_str());
                },
            },
        }
    }

    /// Takes the reply to storing a provider.
    pub fn service_added(&mut self, result: Result<i64, String>)
        ensures
            final(self)@ == service_added_step(old(self)@, result),
    {
        proof {
            use_type_invariant(&*self);
        }
        match result {
            Ok(id) => {
                self.popup = Popup::Closed;
                let digits = i64_to_decimal(id);
                self.status = concat_str("已添加服务商，id=", digits.as_str());
            },
            Err(e) => {
                self.status = concat_str("添加服务商失败: ", e.as_str());
            },
        }
    }

    /// Takes the reply to deleting the provider `id`.
    pub fn service_deleted(&mut self, id: i64, result: Result<bool, String>) -> (c: Command)
        ensures
            final(self)@ == service_deleted_step(old(self)@, id, result).0,
            c@ == service_deleted_step(old(self)@, id, result).1,
    {
        proof {
            use_type_invariant(&*self);
        }
        match result {
            Ok(deleted) => {
                let digits = i64_to_decimal(id);
                if deleted {
                    self.status = concat_str("已删除服务商，id=", digits.as_str());
                    Command::FetchServices(ListPurpose::Delete)
                } else {
                    self.status = concat_str("删除失败，未找到 id=", digits.as_str());
                    Command::Idle
                }
            },
            Err(e) => {
                self.status = concat_str("删除服务商失败: ", e.as_str());
                Command::Idle
            },
        }
    }

    /// Takes the reply to a task submission.
    pub fn task_submitted(&mut self, result: Result<PlannerTaskSubmitResponse, String>)
        ensures
            final(self)@ == task_submitted_step(old(self)@, result),
    {
        proof {
            use_type_invariant(&*self);
        }
        match result {
            Ok(response) => {
                if str_equal(response.status.as_str(), "accepted") {
                    self.status = concat_str("任务已提交，task_id=", response.task_id.as_str());
                    self.current_task_id = Some(response.task_id);
                    self.task_status = String::from_str("pending");
                    self.task_stage = String::from_str("queued");
                    self.task_message = String::from_str("任务已提交，等待 bridge 执行");
                    self.task_progress = 0;
                    self.task_step_count = 0;
                    self.task_max_steps = 12;
                    self.task_error = String::new();
                    self.task_events = Vec::new();
                    self.last_task_poll_ms = None;
                    self.active_tab = Tab::Task;
                } else {
                    self.status = concat_str("任务提交失败：后端状态=", response.status.as_str());
                }
            },
            Err(e) => {
                self.status = concat_str("任务提交失败: ", e.as_str());
            },
        }
    }

    /// Takes the reply to a status fetch.
    pub fn task_status_loaded(&mut self, result: Result<PlannerTaskStatusResponse, String>) -> (c: Command)
        ensures
            final(self)@ == task_status_step(old(self)@, result).0,
            c@ == task_status_step(old(self)@, result).1,
    {
        proof {
            use_type_invariant(&*self);
        }
        match result {
            Ok(task) => {
                let line = task_status_line(&task);
                self.task_status = task.status;
                self.task_stage = task.stage;
                self.task_message = task.message;
                self.task_progress = task.progress;
                self.task_step_count = task.step_count;
                self.task_max_steps = task.max_steps;
                self.task_error = match task.error {
                    Some(e) => e,
                    None => String::new(),
                };
                self.status = line;
                match &self.current_task_id {
                    Some(id) => Command::FetchTaskEvents(id.clone()),
                    None => Command::Idle,
                }
            },
            Err(e) => {
                self.status = concat_str("任务状态拉取失败: ", e.as_str());
                Command::Idle
            },
        }
    }

    /// Takes the reply to an events fetch.
    pub fn task_events_loaded(&mut self, result: Result<Vec<PlannerEvent>, String>)
        ensures
            final(self)@ == task_events_step(old(self)@, result),
    {
        proof {
            use_type_invariant(&*self);
        }
        if let Ok(events) = result {
            self.task_events = events;
        }
    }

    /// Takes the reply to a cancellation.
    pub fn task_cancelled(&mut self, result: Result<PlannerTaskCancelResponse, String>)
        ensures
            final(self)@ == task_cancelled_step(old(self)@, result),
    {
        proof {
            use_type_invariant(&*self);
        }
        match result {
            Ok(response) => {
                if response.cancelled {
                    self.status = concat_str("已发送取消请求，task_id=", response.task_id.as_str());
                    self.task_status = response.status;
                } else {
                    self.status = concat_str("取消失败，后端状态=", response.status.as_str());
                }
            },
            Err(e) => {
                self.status = concat_str("取消任务失败: ", e.as_str());
            },
        }
    }

    /// Takes the reply to a bridge probe.
    pub fn bridge_probed(&mut self, result: Result<(), String>)
        ensures
            final(self)@ == bridge_probed_step(old(self)@, result),
    {
        proof {
            use_type_invariant(&*self);
        }
        if let Err(e) = result {
            self.status = concat_str("bridge 健康检查失败: ", e.as_str());
        }
    }

    /// Appends a line of the bridge's log, keeping the most recent ones.
    pub fn push_bridge_log(&mut self, line: String)
        ensures
            final(self)@ == log_step(old(self)@, line@),
    {
        proof {
            use_type_invariant(&*self);
        }
        let ghost old_logs = self.bridge_logs@;
        let mut logs = Vec::new();
        std::mem::swap(&mut self.bridge_logs, &mut logs);
        logs.push(line);
        if logs.len() > 300 {
            logs.remove(0);
        }
        let ghost f = |l: String| l@;
        proof {
            let pushed = old_logs.push(line);
            if pushed.len() > 300 {
                assert(logs@ =~= pushed.skip(1));
                assert(logs@.map_values(f) =~= pushed.map_values(f).skip(pushed.len() - 300));
            } else {
                assert(logs@.map_values(f) =~= old_logs.map_values(f).push(line@));
            }
        }
        self.bridge_logs = logs;
    }
}

/// `first_hit` is the least row containing the cell, or the number of rows.
pub proof fn lemma_first_hit(rows: Seq<Rect>, x: u16, y: u16)
    ensures
        0 <= first_hit(rows, x, y) <= rows.len(),
        first_hit(rows, x, y) < rows.len() ==> contains_cell(rows[first_hit(rows, x, y)], x, y),
        forall|j: int| 0 <= j < first_hit(rows, x, y) ==> !contains_cell(#[trigger] rows[j], x, y),
    decreases rows.len(),
{
    if rows.len() > 0 && !contains_cell(rows[0], x, y) {
        lemma_first_hit(rows.drop_first(), x, y);
        assert forall|j: int| 0 <= j < first_hit(rows, x, y) implies !contains_cell(
            #[trigger] rows[j],
            x,
            y,
        ) by {
            if j > 0 {
                assert(rows[j] == rows.drop_first()[j - 1]);
            }
        }
        if first_hit(rows, x, y) < rows.len() {
            assert(rows[first_hit(rows, x, y)] == rows.drop_first()[first_hit(rows.drop_first(), x, y)]);
        }
    }
}

/// Whether a task status is final.
fn finished_status(s: &str) -> (b: bool)
    ensures
        b == is_finished_status(s@),
{
    str_equal(s, "success") || str_equal(s, "failed") || str_equal(s, "cancelled") || str_equal(s, "timeout")
}

/// The status line for a task report.
fn task_status_line(task: &PlannerTaskStatusResponse) -> (s: String)
    ensures
        s@ == task_report_line(*task),
{
    if finished_status(task.status.as_str()) && !task.message.as_str().is_empty() {
        let mut s = String::from_str("任务结束：");
        s.append(task.status.as_str());
        s.append("（");
        s.append(task.message.as_str());
        s.append("）");
        s
    } else {
        let mut s = String::from_str("任务状态：");
        s.append(task.status.as_str());
        s.append(" | 阶段：");
        s.append(task.stage.as_str());
        s.append(" | ");
        let digits = u64_to_decimal(task.progress as u64);
        s.append(digits.as_str());
        s.append("%");
        s
    }
}


/// Moving one page right and then one page left (or the reverse) comes back to the same
/// page, and three moves right go all the way round.
pub proof fn lemma_tabs_cycle(t: Tab)
    ensures
        tab_before(tab_after(t)) == t,
        tab_after(tab_before(t)) == t,
        tab_after(tab_after(tab_after(t))) == t,
{
}

/// Without a dialog, Right followed by Left leaves the interface as it was and asks for
/// no outside work.
pub proof fn lemma_right_then_left(v: AppView, now1: u64, now2: u64)
    requires
        v.popup is Closed,
    ensures
        key_step(key_step(v, Key::Right, now1).0, Key::Left, now2).0 == v,
        key_step(v, Key::Right, now1).1 == Effect::Idle,
        key_step(key_step(v, Key::Right, now1).0, Key::Left, now2).1 == Effect::Idle,
{
    lemma_tabs_cycle(v.active_tab);
    assert(key_step(key_step(v, Key::Right, now1).0, Key::Left, now2).0 =~= v);
}

/// On the settings page without a dialog, Down followed by Up selects the same entry again.
pub proof fn lemma_settings_down_then_up(v: AppView, now1: u64, now2: u64)
    requires
        v.popup is Closed,
        v.active_tab == Tab::Settings,
        v.selected_setting < 5,
    ensures
        key_step(key_step(v, Key::Down, now1).0, Key::Up, now2).0 == v,
{
    assert(key_step(key_step(v, Key::Down, now1).0, Key::Up, now2).0 =~= v);
}

/// On the home page without a dialog, typing a printable character other than `q` and
/// then Backspace leaves the input (and everything else) as it was.
pub proof fn lemma_type_then_erase(v: AppView, c: char, now1: u64, now2: u64)
    requires
        v.popup is Closed,
        v.active_tab == Tab::Home,
        !is_control(c),
        c != 'q',
    ensures
        key_step(key_step(v, Key::Char(c), now1).0, Key::Backspace, now2).0 == v,
{
    let v1 = key_step(v, Key::Char(c), now1).0;
    assert(v1.input == v.input.push(c));
    assert(v.input.push(c).drop_last() =~= v.input);
    assert(key_step(v1, Key::Backspace, now2).0 =~= v);
}

/// While a dialog is open, clicks do nothing at all.
pub proof fn lemma_dialog_ignores_clicks(v: AppView, x: u16, y: u16, now: u64)
    requires
        !(v.popup is Closed),
    ensures
        click_step(v, x, y, now).0 == v,
        click_step(v, x, y, now).1 == Effect::Idle,
{
}

/// While a dialog is open, every key goes to the dialog: nothing quits, the page, the
/// settings selection, the home input and the task state stay as they are.
pub proof fn lemma_dialog_takes_keys(v: AppView, key: Key, now: u64)
    requires
        !(v.popup is Closed),
    ensures
        key_step(v, key, now).0.running == v.running,
        key_step(v, key, now).0.active_tab == v.active_tab,
        key_step(v, key, now).0.selected_setting == v.selected_setting,
        key_step(v, key, now).0.input == v.input,
        key_step(v, key, now).0.task_id == v.task_id,
        key_step(v, key, now).0.bridge_logs == v.bridge_logs,
{
}

/// In the add-provider form, Tab pressed four times comes back to the same field.
pub proof fn lemma_form_tab_cycle(v: AppView, now: u64)
    requires
        v.popup matches PopupView::AddService(_, af) && af < 4,
    ensures
        key_step(key_step(key_step(key_step(v, Key::Tab, now).0, Key::Tab, now).0, Key::Tab, now).0, Key::Tab, now).0 == v,
{
    let v4 = key_step(key_step(key_step(key_step(v, Key::Tab, now).0, Key::Tab, now).0, Key::Tab, now).0, Key::Tab, now).0;
    assert(v4 =~= v);
}

/// The log keeps at most its capacity of lines, ends with the newest line, and otherwise
/// holds the most recent earlier lines in order.
pub proof fn lemma_log_window(v: AppView, line: Seq<char>)
    requires
        v.bridge_logs.len() <= log_capacity(),
    ensures
        log_step(v, line).bridge_logs.len() <= log_capacity(),
        log_step(v, line).bridge_logs.last() == line,
        log_step(v, line).bridge_logs.drop_last() == v.bridge_logs.skip(
            v.bridge_logs.len() + 1 - log_step(v, line).bridge_logs.len(),
        ),
{
    let logs = v.bridge_logs.push(line);
    let n = log_step(v, line).bridge_logs.len();
    assert(log_step(v, line).bridge_logs.drop_last() =~= v.bridge_logs.skip(
        v.bridge_logs.len() + 1 - n,
    ));
}

/// Once a status poll has gone out, no further poll goes out for half a second.
pub proof fn lemma_task_poll_rate(v: AppView, t1: u64, t2: u64)
    requires
        poll_task_step(v, t1).1 is FetchTaskStatus,
        t2 < t1 + 500,
    ensures
        poll_task_step(poll_task_step(v, t1).0, t2).1 == Effect::Idle,
{
}

/// Once a bridge probe has gone out, no further probe goes out for five seconds.
pub proof fn lemma_bridge_probe_rate(v: AppView, t1: u64, t2: u64)
    requires
        bridge_probe_step(v, t1).1 is ProbeBridge,
        t2 < t1 + 5000,
    ensures
        bridge_probe_step(bridge_probe_step(v, t1).0, t2).1 == Effect::Idle,
{
}

/// Right after a task is accepted, its status is fetched at the next poll, whatever the time.
pub proof fn lemma_accepted_task_polled(v: AppView, r: Result<PlannerTaskSubmitResponse, String>, now: u64)
    requires
        r matches Ok(resp) && resp.status@ == "accepted"@,
    ensures
        poll_task_step(task_submitted_step(v, r), now).1 == Effect::FetchTaskStatus(r->Ok_0.task_id@),
{
}

/// `n` spaces.
pub open spec fn spaces(n: nat) -> Seq<char> {
    Seq::new(n, |i: int| ' ')
}

/// `s` filled with spaces on the right up to `w` characters.
pub open spec fn pad_right(s: Seq<char>, w: nat) -> Seq<char> {
    if s.len() < w { s + spaces((w - s.len()) as nat) } else { s }
}

/// `s` filled with spaces on the left up to `w` characters.
pub open spec fn pad_left(s: Seq<char>, w: nat) -> Seq<char> {
    if s.len() < w { spaces((w - s.len()) as nat) + s } else { s }
}

fn push_spaces(s: &mut String, n: usize)
    ensures
        final(s)@ == old(s)@ + spaces(n as nat),
{
    let mut k: usize = 0;
    while k < n
        invariant
            k <= n,
            s@ == old(s)@ + spaces(k as nat),
        decreases n - k,
    {
        s.push(' ');
        assert(old(s)@ + spaces((k + 1) as nat) =~= (old(s)@ + spaces(k as nat)).push(' '));
        k += 1;
    }
}

/// The list line of a provider: `#`, its id left-aligned in three columns, then name,
/// model and URL separated by ` | `.
pub open spec fn service_line_text(p: ServiceProvider) -> Seq<char> {
    "#"@ + pad_right(signed_decimal(p.id as int), 3) + " "@ + p.provider_name@ + " | "@ + p.model_name@
        + " | "@ + p.api_url@
}

/// The list line of a provider.
pub fn service_line(p: &ServiceProvider) -> (s: String)
    ensures
        s@ == service_line_text(*p),
{
    let id = i64_to_decimal(p.id);
    let mut s = String::from_str("#");
    s.append(id.as_str());
    let n = id.as_str().unicode_len();
    if n < 3 {
        push_spaces(&mut s, 3 - n);
    }
    s.append(" ");
    s.append(p.provider_name.as_str());
    s.append(" | ");
    s.append(p.model_name.as_str());
    s.append(" | ");
    s.append(p.api_url.as_str());
    s
}

/// The number in front of settings entry `idx`: its position from one, right-aligned in
/// two columns, then `. `.
pub fn settings_line_prefix(idx: usize) -> (s: String)
    requires
        idx < usize::MAX,
    ensures
        s@ == pad_left(decimal((idx + 1) as nat), 2) + ". "@,
{
    let digits = u64_to_decimal((idx + 1) as u64);
    let n = digits.as_str().unicode_len();
    let mut s = String::new();
    if n < 2 {
        push_spaces(&mut s, 2 - n);
    }
    s.append(digits.as_str());
    s.append(". ");
    s
}

/// A line of the add-provider form: the label, `: ` and the value typed so far.
pub fn form_line(label: &str, value: &str) -> (s: String)
    ensures
        s@ == label@ + ": "@ + value@,
{
    let mut s = String::from_str(label);
    s.append(": ");
    s.append(value);
    s
}

/// A line of the task page's event list.
pub open spec fn event_line_text(e: PlannerEvent) -> Seq<char> {
    "#"@ + signed_decimal(e.seq as int) + " ["@ + e.event_type@ + "|"@ + e.stage@ + "] "@
        + e.timestamp@ + " | "@ + e.message@
}

fn event_line(e: &PlannerEvent) -> (s: String)
    ensures
        s@ == event_line_text(*e),
{
    let seq_text = i64_to_decimal(e.seq as i64);
    let mut s = String::from_str("#");
    s.append(seq_text.as_str());
    s.append(" [");
    s.append(e.event_type.as_str());
    s.append("|");
    s.append(e.stage.as_str());
    s.append("] ");
    s.append(e.timestamp.as_str());
    s.append(" | ");
    s.append(e.message.as_str());
    s
}

/// The last `n` elements of `s` (all of them when there are fewer).
pub open spec fn last_n<A>(s: Seq<A>, n: nat) -> Seq<A> {
    if s.len() > n { s.skip(s.len() - n) } else { s }
}

/// The text of the task page: the current task's fields, its error if any, its eight most
/// recent events and the six most recent log lines of the bridge.
pub open spec fn task_page_text(v: AppView) -> Seq<Seq<char>> {
    let head = seq![
        "任务中心"@,
        "task_id: "@ + match v.task_id {
            Some(id) => id,
            None => "<暂无任务>"@,
        },
        "状态: "@ + v.task_status,
        "阶段: "@ + v.task_stage,
        "当前消息: "@ + v.task_message,
        "进度: "@ + decimal(v.task_progress as nat) + "% (步数 "@ + signed_decimal(v.task_step_count as int)
            + "/"@ + signed_decimal(v.task_max_steps as int) + ")"@
    ];
    let error = if v.task_error.len() > 0 { seq!["错误: "@ + v.task_error] } else { Seq::empty() };
    head + error + seq!["最近事件:"@] + last_n(v.task_events, 8).map_values(|e: PlannerEvent| event_line_text(e))
        + seq!["实时Python日志(WS):"@] + last_n(v.bridge_logs, 6)
}

/// The label of the task page's button.
pub open spec fn cancel_label(v: AppView) -> Seq<char> {
    if v.task_id is Some { "[ 取消任务 ]"@ } else { "[ 暂无任务 ]"@ }
}

impl App {
    /// Whether the interface keeps running.
    pub fn running(&self) -> (b: bool)
        ensures
            b == self@.running,
    {
        self.running
    }

    /// The page shown.
    pub fn active_tab(&self) -> (t: Tab)
        ensures
            t == self@.active_tab,
    {
        self.active_tab
    }

    /// The status line.
    pub fn status(&self) -> (s: &str)
        ensures
            s@ == self@.status,
    {
        self.status.as_str()
    }

    /// The selected settings entry.
    pub fn selected_setting(&self) -> (i: usize)
        ensures
            i == self@.selected_setting,
            i < SETTINGS_COUNT,
    {
        proof {
            use_type_invariant(self);
        }
        self.selected_setting
    }

    /// The open dialog.
    pub fn popup(&self) -> (p: &Popup)
        ensures
            p@ == self@.popup,
    {
        &self.popup
    }

    /// The task typed on the home page.
    pub fn home_input(&self) -> (s: &str)
        ensures
            s@ == self@.input,
    {
        self.home_intro_input.as_str()
    }

    /// Whether a task has been submitted.
    pub fn has_task(&self) -> (b: bool)
        ensures
            b == self@.task_id is Some,
    {
        self.current_task_id.is_some()
    }

    /// The label of the task page's button.
    pub fn cancel_button_label(&self) -> (s: String)
        ensures
            s@ == cancel_label(self@),
    {
        if self.current_task_id.is_some() {
            String::from_str("[ 取消任务 ]")
        } else {
            String::from_str("[ 暂无任务 ]")
        }
    }

    /// The lines of the task page.
    pub fn task_page_lines(&self) -> (lines: Vec<String>)
        ensures
            texts(lines@) == task_page_text(self@),
    {
        let ghost v = self@;
        let mut lines: Vec<String> = Vec::new();
        push_line(&mut lines, String::from_str("任务中心"));
        let id_line = match &self.current_task_id {
            Some(id) => concat_str("task_id: ", id.as_str()),
            None => concat_str("task_id: ", "<暂无任务>"),
        };
        push_line(&mut lines, id_line);
        push_line(&mut lines, concat_str("状态: ", self.task_status.as_str()));
        push_line(&mut lines, concat_str("阶段: ", self.task_stage.as_str()));
        push_line(&mut lines, concat_str("当前消息: ", self.task_message.as_str()));
        let mut progress = String::from_str("进度: ");
        progress.append(u64_to_decimal(self.task_progress as u64).as_str());
        progress.append("% (步数 ");
        progress.append(i64_to_decimal(self.task_step_count as i64).as_str());
        progress.append("/");
        progress.append(i64_to_decimal(self.task_max_steps as i64).as_str());
        progress.append(")");
        push_line(&mut lines, progress);
        let ghost head = texts(lines@);
        if !self.task_error.as_str().is_empty() {
            push_line(&mut lines, concat_str("错误: ", self.task_error.as_str()));
        }
        let ghost with_error = texts(lines@);
        push_line(&mut lines, String::from_str("最近事件:"));
        let ghost before_events = texts(lines@);
        let n = self.task_events.len();
        let start: usize = if n > 8 { n - 8 } else { 0 };
        let mut k: usize = start;
        while k < n
            invariant
                start <= k <= n,
                n == v.task_events.len(),
                start == (if n > 8 { n - 8 } else { 0int }),
                v == self@,
                texts(lines@) == before_events + v.task_events.subrange(start as int, k as int).map_values(
                    |e: PlannerEvent| event_line_text(e),
                ),
            decreases n - k,
        {
            push_line(&mut lines, event_line(&self.task_events[k]));
            assert(v.task_events.subrange(start as int, k + 1).map_values(|e: PlannerEvent| event_line_text(e))
                =~= v.task_events.subrange(start as int, k as int).map_values(|e: PlannerEvent| event_line_text(e)).push(
                event_line_text(v.task_events[k as int])));
            k += 1;
        }
        assert(v.task_events.subrange(start as int, n as int) =~= last_n(v.task_events, 8));
        push_line(&mut lines, String::from_str("实时Python日志(WS):"));
        let ghost before_logs = texts(lines@);
        let m = self.bridge_logs.len();
        let lstart: usize = if m > 6 { m - 6 } else { 0 };
        let mut j: usize = lstart;
        while j < m
            invariant
                lstart <= j <= m,
                m == v.bridge_logs.len(),
                m == self.bridge_logs@.len(),
                lstart == (if m > 6 { m - 6 } else { 0int }),
                v == self@,
                texts(lines@) == before_logs + v.bridge_logs.subrange(lstart as int, j as int),
            decreases m - j,
        {
            let line = self.bridge_logs[j].clone();
            proof {
                assert(v.bridge_logs[j as int] == self.bridge_logs@[j as int]@);
            }
            push_line(&mut lines, line);
            assert(v.bridge_logs.subrange(lstart as int, j + 1) =~= v.bridge_logs.subrange(lstart as int, j as int).push(v.bridge_logs[j as int]));
            j += 1;
        }
        assert(v.bridge_logs.subrange(lstart as int, m as int) =~= last_n(v.bridge_logs, 6));
        proof {
            reveal_strlit("<暂无任务>");
            let error = if v.task_error.len() > 0 { seq!["错误: "@ + v.task_error] } else { Seq::<Seq<char>>::empty() };
            assert(with_error =~= head + error);
        }
        assert(texts(lines@) =~= task_page_text(v));
        lines
    }
}

/// The texts of a list of strings.
pub open spec fn texts(v: Seq<String>) -> Seq<Seq<char>> {
    v.map_values(|l: String| l@)
}

fn push_line(lines: &mut Vec<String>, line: String)
    ensures
        texts(final(lines)@) == texts(old(lines)@).push(line@),
{
    let ghost before = lines@;
    lines.push(line);
    assert(texts(lines@) =~= texts(before).push(line@));
}

/// In a provider list with rows, Up and Down move the highlight one row without wrapping
/// around, keep it on an existing row, keep the list and its kind, and ask for nothing.
pub proof fn lemma_list_popup_navigation(v: AppView, key: Key, now: u64)
    requires
        key == Key::Up || key == Key::Down,
        match v.popup {
            PopupView::ViewServices(items, sel) => items.len() > 0 && sel < items.len(),
            PopupView::DeleteService(items, sel) => items.len() > 0 && sel < items.len(),
            _ => false,
        },
    ensures
        key_step(v, key, now).1 == Effect::Idle,
        match (v.popup, key_step(v, key, now).0.popup) {
            (PopupView::ViewServices(items, sel), PopupView::ViewServices(items2, sel2)) => items2
                == items && sel2 < items.len() && sel2 == (if key == Key::Up {
                if sel > 0 { (sel - 1) as nat } else { 0 }
            } else {
                if sel + 1 < items.len() { sel + 1 } else { (items.len() - 1) as nat }
            }),
            (PopupView::DeleteService(items, sel), PopupView::DeleteService(items2, sel2)) => items2
                == items && sel2 < items.len() && sel2 == (if key == Key::Up {
                if sel > 0 { (sel - 1) as nat } else { 0 }
            } else {
                if sel + 1 < items.len() { sel + 1 } else { (items.len() - 1) as nat }
            }),
            _ => false,
        },
{
}

/// In the add-provider form, Down followed by Up (or Up followed by Down) gives the form
/// back unchanged, and Tab, Down and Up keep the edited field among the four.
pub proof fn lemma_form_field_moves(v: AppView, now1: u64, now2: u64)
    requires
        v.popup matches PopupView::AddService(_, af) && af < 4,
    ensures
        key_step(key_step(v, Key::Down, now1).0, Key::Up, now2).0 == v,
        key_step(key_step(v, Key::Up, now1).0, Key::Down, now2).0 == v,
        key_step(v, Key::Tab, now1).0.popup matches PopupView::AddService(_, af) && af < 4,
        key_step(v, Key::Down, now1).0.popup matches PopupView::AddService(_, af) && af < 4,
        key_step(v, Key::Up, now1).0.popup matches PopupView::AddService(_, af) && af < 4,
{
    assert(key_step(key_step(v, Key::Down, now1).0, Key::Up, now2).0 =~= v);
    assert(key_step(key_step(v, Key::Up, now1).0, Key::Down, now2).0 =~= v);
}

/// Whether the clickable places of `tab`'s page can be computed on `body`: the home
/// page's button can be centred, the settings rows stay within the `u16` range.
pub open spec fn regions_fit(body: Rect, tab: Tab) -> bool {
    match tab {
        Tab::Home => home_fits(body),
        Tab::Task => true,
        Tab::Settings => rows_fit(bordered_inner_of(body), 5),
    }
}

/// Whether `ui_regions(screen, tab)` can be computed.
pub fn ui_regions_fit(screen: &ScreenLayout, tab: Tab) -> (b: bool)
    ensures
        b == regions_fit(screen.body, tab),
{
    match tab {
        Tab::Home => home_layout_fits(screen.body),
        Tab::Task => true,
        Tab::Settings => settings_rows_fit(screen.body, SETTINGS_COUNT),
    }
}

/// The clickable places of a frame showing `tab`: the three tabs, and the page's own
/// places: the start button on the home page, the cancel button on the task page, one
/// row per entry on the settings page.
pub fn ui_regions(screen: &ScreenLayout, tab: Tab) -> (r: UiRegions)
    requires
        regions_fit(screen.body, tab),
    ensures
        r@.home_tab == screen.home_tab,
        r@.task_tab == screen.task_tab,
        r@.settings_tab == screen.settings_tab,
        tab == Tab::Home ==> exists|row: Rect|
            #[trigger] in_column(screen.body, row) && (screen.body.y + screen.body.height
                <= u16::MAX && screen.body.height >= 13 ==> row.y == screen.body.y + 10
                && row.height == 3) && r@.start_button == Some(centered(row, 22, 3)),
        tab != Tab::Home ==> r@.start_button is None,
        tab == Tab::Task ==> exists|lower: Rect|
            #[trigger] in_column(bordered_inner_of(screen.body), lower) && ({
                let inner = bordered_inner_of(screen.body);
                inner.y + inner.height <= u16::MAX && inner.height >= 4 ==> lower.y == inner.y
                    + inner.height - 3 && lower.height == 3
            }) && r@.task_cancel_button == Some(
                clamped_rect(lower.x, lower.y, min16(18, lower.width), min16(lower.height, 3)),
            ),
        tab != Tab::Task ==> r@.task_cancel_button is None,
        tab == Tab::Settings ==> r@.setting_rows.len() == SETTINGS_COUNT && forall|i: int|
            0 <= i < SETTINGS_COUNT ==> #[trigger] r@.setting_rows[i] == settings_row(
                bordered_inner_of(screen.body),
                i,
            ),
        tab != Tab::Settings ==> r@.setting_rows.len() == 0,
{
    let mut regions = UiRegions {
        home_tab: screen.home_tab,
        task_tab: screen.task_tab,
        settings_tab: screen.settings_tab,
        start_button: None,
        task_cancel_button: None,
        setting_rows: Vec::new(),
    };
    match tab {
        Tab::Home => {
            regions.start_button = Some(home_layout(screen.body).start_button);
        },
        Tab::Task => {
            regions.task_cancel_button = Some(task_layout(screen.body).cancel_button);
        },
        Tab::Settings => {
            regions.setting_rows = settings_layout(screen.body, SETTINGS_COUNT).rows;
        },
    }
    regions
}

/// The row of a provider list shown highlighted: the selected one, or the last when the
/// selection lies past the end; none for an empty list.
pub fn highlighted_row(list: &ServiceListPopup) -> (r: Option<usize>)
    ensures
        list.items@.len() == 0 ==> r is None,
        list.items@.len() > 0 ==> r == Some(
            if list.selected < list.items@.len() { list.selected } else { (list.items@.len() - 1) as usize },
        ),
{
    let n = list.items.len();
    if n == 0 {
        None
    } else if list.selected < n {
        Some(list.selected)
    } else {
        Some(n - 1)
    }
}

/// The text of a provider list without providers.
pub fn empty_list_text(deleting: bool) -> (s: String)
    ensures
        s@ == (if deleting { "暂无可删除服务商（Esc关闭）"@ } else { "暂无服务商记录（Esc关闭）"@ }),
{
    if deleting {
        String::from_str("暂无可删除服务商（Esc关闭）")
    } else {
        String::from_str("暂无服务商记录（Esc关闭）")
    }
}

/// The key hint of a provider list.
pub fn list_hint(deleting: bool) -> (s: String)
    ensures
        s@ == (if deleting { "Esc关闭 | ↑↓选择 | Enter删除"@ } else { "Esc关闭 | ↑↓浏览"@ }),
{
    if deleting {
        String::from_str("Esc关闭 | ↑↓选择 | Enter删除")
    } else {
        String::from_str("Esc关闭 | ↑↓浏览")
    }
}

/// The task page never shows more than eight events and six log lines, so it has at most
/// twenty-three lines.
pub proof fn lemma_task_page_bounded(v: AppView)
    ensures
        last_n(v.task_events, 8).len() <= 8,
        last_n(v.bridge_logs, 6).len() <= 6,
        task_page_text(v).len() <= 23,
{
}

/// Polling is periodic: with a current task whose status was last fetched at `t`, a poll
/// at any time from `t + 500` on fetches that task's status again and records the new
/// time, leaving everything else as it was.
pub proof fn lemma_poll_due_again(v: AppView, id: Seq<char>, t: u64, now: u64)
    requires
        v.task_id == Some(id),
        v.last_task_poll == Some(t),
        now >= t + 500,
    ensures
        poll_task_step(v, now).1 == Effect::FetchTaskStatus(id),
        poll_task_step(v, now).0 == (AppView { last_task_poll: Some(now), ..v }),
{
}

/// A poll that fetched the task's status is followed, half a second later or more, by
/// another fetch of the same task: the task page keeps refreshing.
pub proof fn lemma_poll_repeats(v: AppView, id: Seq<char>, now1: u64, now2: u64)
    requires
        v.task_id == Some(id),
        poll_task_step(v, now1).1 == Effect::FetchTaskStatus(id),
        now2 >= now1 + 500,
    ensures
        poll_task_step(poll_task_step(v, now1).0, now2).1 == Effect::FetchTaskStatus(id),
{
}

/// In the delete dialog, Enter deletes the provider on the highlighted row and changes
/// nothing else until the deletion is reported.
pub proof fn lemma_delete_highlighted(v: AppView, items: Seq<ServiceProvider>, sel: nat, now: u64)
    requires
        v.popup == PopupView::DeleteService(items, sel),
        sel < items.len(),
    ensures
        popup_key_step(v, Key::Enter) == (v, Effect::DeleteService(items[sel as int].id)),
        key_step(v, Key::Enter, now) == (v, Effect::DeleteService(items[sel as int].id)),
{
}

/// On the task page with no dialog open, a click inside the cancel button (and on no tab)
/// asks to cancel the current task, or reports that there is none to cancel.
pub proof fn lemma_cancel_button_cancels(v: AppView, b: Rect, x: u16, y: u16, now: u64)
    requires
        v.popup is Closed,
        v.active_tab == Tab::Task,
        v.regions.task_cancel_button == Some(b),
        contains_cell(b, x, y),
        !contains_cell(v.regions.home_tab, x, y),
        !contains_cell(v.regions.task_tab, x, y),
        !contains_cell(v.regions.settings_tab, x, y),
    ensures
        v.task_id matches Some(id) ==> click_step(v, x, y, now) == (v, Effect::CancelTask(id)),
        v.task_id is None ==> click_step(v, x, y, now) == (
            AppView { status: "暂无可取消任务"@, ..v },
            Effect::Idle,
        ),
{
}

} // verus!
