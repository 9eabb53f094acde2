use evolution_board::board::{board, help, parse_board_args, show_events, show_task_detail, BoardCommand, BOARD_HELP, NO_EVENTS};
use evolution_board::state_board::{StateBoard, TaskStage};

fn args(v: &[&str]) -> Vec<String> {
    v.iter().map(|s| s.to_string()).collect()
}

#[test]
fn board_arguments_select_the_view() {
    assert!(matches!(parse_board_args(&args(&[])), BoardCommand::Summary));
    assert!(matches!(parse_board_args(&args(&["status"])), BoardCommand::Summary));
    assert!(matches!(parse_board_args(&args(&["events"])), BoardCommand::Events));
    assert!(matches!(parse_board_args(&args(&["clear"])), BoardCommand::Clear));
    assert!(matches!(parse_board_args(&args(&["--help"])), BoardCommand::Help));
    match parse_board_args(&args(&["550e8400-e29b-41d4-a716-446655440000"])) {
        BoardCommand::Detail(id) => assert_eq!(id, "550e8400-e29b-41d4-a716-446655440000"),
        _ => panic!("expected a task identifier"),
    }
    assert!(matches!(parse_board_args(&args(&["國國國國國國國國國國國國"])), BoardCommand::Detail(_)));
}

#[test]
fn summary_of_a_board() {
    let mut b = StateBoard::new();
    let a = b.create_task("庫存".into());
    b.update_stage(&a, TaskStage::Done, None, None);
    let out = board(&args(&[]), &mut b).unwrap();
    let expected = format!(
        "╔══════════════════════════════════════╗\n║       Evolution State Board          ║\n╚══════════════════════════════════════╝\n\n總任務數：1  tasks\n\n✅ Done  -  1 tasks\n\n📬 有 1 個未送達事件，執行 `evolution board events` 查看\n\n─── 任務列表 ───\n✅ `{}` 庫存\n",
        a
    );
    assert_eq!(out, expected);
}

#[test]
fn event_list() {
    let mut b = StateBoard::new();
    assert_eq!(show_events(&b), NO_EVENTS);
    let a = b.create_task("庫存".into());
    b.update_stage(&a, TaskStage::Blocked, None, None);
    let out = board(&args(&["events"]), &mut b).unwrap();
    assert!(out.ends_with(&format!("1. ⚠️ 任務「庫存」需要你做決定 — 任務遇到需要使用者決定的環節 [任務: {}]\n", a)));
}

#[test]
fn task_details_and_unknown_task() {
    let mut b = StateBoard::new();
    let a = b.create_task("庫存".into());
    b.update_stage(&a, TaskStage::Planning, Some("開始".into()), None);
    let out = show_task_detail(&b, &a).unwrap();
    assert!(out.contains(&format!("ID：{}  🔵 Planning\n建立：", a)));
    assert!(out.contains("\n─── 階段歷史 ───\n1. Pending → Planning [開始] ("));
    let missing = "00000000-0000-0000-0000-000000000000";
    assert_eq!(board(&args(&[missing]), &mut b).unwrap_err(), format!("找不到任務：{}", missing));
}

#[test]
fn clear_and_help() {
    let mut b = StateBoard::new();
    let a = b.create_task("a".into());
    b.create_task("b".into());
    b.update_stage(&a, TaskStage::Done, None, None);
    assert_eq!(board(&args(&["clear"]), &mut b).unwrap(), "已清除 1 個已完成任務");
    assert_eq!(b.list_tasks().len(), 1);
    assert_eq!(board(&args(&["what"]), &mut b).unwrap(), BOARD_HELP);
    assert_eq!(help(), BOARD_HELP);
}
