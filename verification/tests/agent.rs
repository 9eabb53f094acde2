use evolution_board::agent::{
    agent_start, build_opencode_prompt, git_flow_start, git_flow_step, AgentStart, GitStage,
    PlanSummary, WorkMode,
};
use evolution_board::process::RunOutcome;
use evolution_board::time::Timestamp;

fn ok_run(out: &str) -> RunOutcome {
    RunOutcome::Exited { success: true, stdout: out.to_string(), stderr: String::new() }
}

fn failed_run() -> RunOutcome {
    RunOutcome::Exited { success: false, stdout: String::new(), stderr: "err".to_string() }
}

#[test]
fn agent_command_line() {
    assert!(matches!(agent_start(&["agent".to_string()]), AgentStart::Help));
    assert!(matches!(agent_start(&["agent".to_string(), "  ".to_string()]), AgentStart::Empty));
    match agent_start(&["agent".to_string(), "建".to_string(), "庫存".to_string()]) {
        AgentStart::Task(t) => assert_eq!(t, "建 庫存"),
        _ => panic!("expected a task"),
    }
}

#[test]
fn publishing_runs_every_git_step() {
    let (mut flow, step) = git_flow_start();
    assert_eq!(step.run.unwrap(), vec!["status", "--porcelain"]);
    // 2024-01-01T00:00:00Z plus 5 seconds
    let now = Timestamp::from_micros(1_704_067_205_000_000).unwrap();
    let step = git_flow_step(&mut flow, ok_run(" M a.rs\n?? b.rs\n"), now);
    assert_eq!(step.lines, vec!["  📝 待提交變更：", "     M a.rs", "    ?? b.rs"]);
    assert_eq!(step.run.unwrap(), vec!["add", "-A"]);
    let step = git_flow_step(&mut flow, ok_run(""), now);
    assert_eq!(step.run.unwrap(), vec!["commit", "-m", "[Evolution Agent] 任務完成 @ 2024-01-01 00:00 UTC"]);
    let step = git_flow_step(&mut flow, failed_run(), now);
    assert_eq!(step.lines, vec!["  ℹ️  沒有變更需要 commit"]);
    assert_eq!(step.run.unwrap(), vec!["push", "origin", "HEAD"]);
    let step = git_flow_step(&mut flow, ok_run(""), now);
    assert_eq!(
        step.run.unwrap(),
        vec!["tag", "-a", "v0.205.0", "-m", "[Evolution Agent] 任務完成 @ 2024-01-01 00:00 UTC"]
    );
    let step = git_flow_step(&mut flow, ok_run(""), now);
    assert_eq!(step.lines, vec!["  🏷️  Tag v0.205.0 已建立"]);
    assert_eq!(step.run.unwrap(), vec!["push", "origin", "--tags"]);
    let step = git_flow_step(&mut flow, ok_run(""), now);
    assert_eq!(step.lines[0], "  ✅ Tags pushed");
    assert_eq!(step.lines[2], "═".repeat(50));
    assert!(step.run.is_none());
    assert_eq!(flow.stage, GitStage::Done);
}

#[test]
fn publishing_stops_early() {
    let now = Timestamp::from_micros(0).unwrap();
    let (mut flow, _) = git_flow_start();
    let step = git_flow_step(&mut flow, ok_run("  \n"), now);
    assert_eq!(step.lines[0], "  ✅ 沒有待提交的變更");
    assert!(step.run.is_none());
    let (mut flow, _) = git_flow_start();
    let step = git_flow_step(&mut flow, RunOutcome::NotStarted("no git".into()), now);
    assert_eq!(step.lines[0], "  ⚠️  無法讀取 git status：no git");
    let (mut flow, _) = git_flow_start();
    git_flow_step(&mut flow, ok_run("x"), now);
    git_flow_step(&mut flow, ok_run(""), now);
    git_flow_step(&mut flow, ok_run(""), now);
    let step = git_flow_step(&mut flow, failed_run(), now);
    assert_eq!(step.lines[0], "  ⚠️  Push 失敗，請手動檢查");
    assert_eq!(flow.stage, GitStage::Done);
}

#[test]
fn pending_changes_show_ten_lines() {
    let now = Timestamp::from_micros(0).unwrap();
    let (mut flow, _) = git_flow_start();
    let out: String = (0..12).map(|i| format!("M f{}\n", i)).collect();
    let step = git_flow_step(&mut flow, ok_run(&out), now);
    assert_eq!(step.lines.len(), 11);
    assert_eq!(step.lines[10], "    M f9");
}

#[test]
fn worker_prompt() {
    let plan = PlanSummary {
        work_mode: WorkMode::Fork,
        reasoning_branches: 3,
        domain_diversity: 2,
        context_complexity_text: "0.75".into(),
        estimated_nodes: 4,
        domain_tags: vec!["db".into(), "ui".into()],
        requirements: vec![("登入".into(), "auth".into())],
        questions: vec![("q1".into(), "用哪個資料庫？".into(), "tech".into())],
    };
    let p = build_opencode_prompt("建部落格", &plan);
    assert!(p.starts_with("你是 Evolution OS 的實作幫手。任務：建部落格\n\n任務複雜度分析：\n  - 推理分支數：3\n  - 領域多樣性：2\n  - 語境複雜度：0.75\n  - 分工模式：Fork（多節點分工）\n  - 預估節點數：4\n  - 領域標籤：[\"db\", \"ui\"]\n"));
    assert!(p.contains("\n需求項目：\n  1. 登入 (auth)\n"));
    assert!(p.contains("\n待確認問題：\n  - q1: 用哪個資料庫？ (tech)\n"));
    assert!(p.ends_with("如果是複雜任務，自動分工給多個 worker 處理不同的領域。\n"));
    let bare = PlanSummary { domain_tags: vec![], requirements: vec![], questions: vec![], ..plan };
    let p = build_opencode_prompt("t", &bare);
    assert!(!p.contains("領域標籤"));
    assert!(p.contains("  - 預估節點數：4\n\n請開始實作。"));
}
