use win_media_unbind::{Action, CleaningJob, ExtensionOutcome, LineEnding};

fn s(text: &str) -> String {
    text.to_string()
}

/// Drives `job` to its end against a registry that answers per `outcomes`.
fn run(mut job: CleaningJob, outcomes: &[ExtensionOutcome]) -> Vec<Action> {
    let mut actions = Vec::new();
    let mut ok = true;
    let mut index = 0usize;
    let mut seen_first = false;
    for _ in 0..1000 {
        let a = job.next_action(ok);
        ok = match &a {
            Action::DeleteClassesRootKey(_) => {
                if seen_first {
                    index += 1;
                }
                seen_first = true;
                outcomes[index].classes_root
            }
            Action::OpenFileExtsKey => outcomes[index].opened,
            Action::DeleteFileExtsKey(_) => outcomes[index].file_exts,
            _ => true,
        };
        let done = a == Action::Finish;
        actions.push(a);
        if done {
            break;
        }
    }
    actions
}

fn outcome(classes_root: bool, opened: bool, file_exts: bool) -> ExtensionOutcome {
    ExtensionOutcome { classes_root, opened, file_exts }
}

#[test]
fn run_reports_only_cleaned_extensions() {
    let job = CleaningJob::new("视频格式", vec!["avi", "mkv", "mp4", "ts"], LineEnding::CrLf);
    let actions = run(
        job,
        &[outcome(true, true, false), outcome(false, true, false), outcome(false, false, false), outcome(false, true, true)],
    );
    assert_eq!(
        actions,
        vec![
            Action::AppendLog(s("--- 开始处理: 视频格式 ---\r\n")),
            Action::DeleteClassesRootKey(s(".avi")),
            Action::OpenFileExtsKey,
            Action::DeleteFileExtsKey(s(".avi")),
            Action::AppendLog(s("已清理: .avi\r\n")),
            Action::DeleteClassesRootKey(s(".mkv")),
            Action::OpenFileExtsKey,
            Action::DeleteFileExtsKey(s(".mkv")),
            Action::DeleteClassesRootKey(s(".mp4")),
            Action::OpenFileExtsKey,
            Action::DeleteClassesRootKey(s(".ts")),
            Action::OpenFileExtsKey,
            Action::DeleteFileExtsKey(s(".ts")),
            Action::AppendLog(s("已清理: .ts\r\n")),
            Action::RefreshIcons,
            Action::AppendLog(s(">> 已发送系统刷新信号，图标应已更新。\r\n--- 视频格式 处理完成 ---\r\n")),
            Action::Finish,
        ]
    );
}

#[test]
fn run_over_no_extension_still_refreshes() {
    let job = CleaningJob::new("空", vec![], LineEnding::Lf);
    let actions = run(job, &[]);
    assert_eq!(
        actions,
        vec![
            Action::AppendLog(s("--- 开始处理: 空 ---\n")),
            Action::RefreshIcons,
            Action::AppendLog(s(">> 已发送系统刷新信号，图标应已更新。\n--- 空 处理完成 ---\n")),
            Action::Finish,
        ]
    );
}

#[test]
fn run_when_both_keys_go_reports_once() {
    let job = CleaningJob::new("a", vec!["mp3"], LineEnding::Lf);
    let actions = run(job, &[outcome(true, true, true)]);
    let reports = actions.iter().filter(|a| **a == Action::AppendLog(s("已清理: .mp3\n"))).count();
    assert_eq!(reports, 1);
    assert_eq!(actions.len(), 1 + 4 + 3);
}

#[test]
fn finished_job_stays_finished() {
    let mut job = CleaningJob::new("a", vec!["x"], LineEnding::Lf);
    assert!(!job.is_finished());
    let mut last = job.next_action(true);
    while last != Action::Finish {
        last = job.next_action(false);
    }
    assert!(job.is_finished());
    for ok in [true, false, true] {
        assert_eq!(job.next_action(ok), Action::Finish);
        assert!(job.is_finished());
    }
}

#[test]
fn every_extension_is_deleted_in_both_places() {
    let exts = win_media_unbind::MediaCategory::Audio.extensions();
    let n = exts.len();
    let job = CleaningJob::new("音频格式", exts.clone(), LineEnding::CrLf);
    let outcomes = vec![outcome(false, true, false); n];
    let actions = run(job, &outcomes);
    let hkcr: Vec<String> = actions
        .iter()
        .filter_map(|a| match a {
            Action::DeleteClassesRootKey(k) => Some(k.clone()),
            _ => None,
        })
        .collect();
    let file_exts: Vec<String> = actions
        .iter()
        .filter_map(|a| match a {
            Action::DeleteFileExtsKey(k) => Some(k.clone()),
            _ => None,
        })
        .collect();
    let expected: Vec<String> = exts.iter().map(|e| format!(".{}", e)).collect();
    assert_eq!(hkcr, expected);
    assert_eq!(file_exts, expected);
    assert_eq!(actions.iter().filter(|a| **a == Action::RefreshIcons).count(), 1);
    assert_eq!(actions[actions.len() - 3], Action::RefreshIcons);
}
