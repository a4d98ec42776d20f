use win_media_unbind::{Action, Frontend, MediaCategory, WinMediaUnbind};

#[test]
fn default_tool_is_ready() {
    let t = WinMediaUnbind::default();
    assert_eq!(t.frontend(), Frontend::Egui);
    assert_eq!(t.logs(), "就绪... 等待指令。\n");
}

#[test]
fn native_tool_logs_with_crlf() {
    let mut t = WinMediaUnbind::new(Frontend::NativeWindow);
    assert_eq!(t.logs(), "");
    t.announce_ready();
    t.open_link();
    assert_eq!(t.logs(), "就绪... 等待指令。\r\n正在打开项目地址...\r\n");
    t.append_log("x");
    t.append_log("y\r\n");
    assert_eq!(t.logs(), "就绪... 等待指令。\r\n正在打开项目地址...\r\nxy\r\n");
}

#[test]
fn egui_log_appends_newline() {
    let mut t = WinMediaUnbind::default();
    t.log("正在打开项目地址...");
    assert_eq!(t.logs(), "就绪... 等待指令。\n正在打开项目地址...\n");
}

fn banner(mut job: win_media_unbind::CleaningJob) -> Action {
    job.next_action(true)
}

#[test]
fn clean_buttons_start_labelled_runs() {
    let t = WinMediaUnbind::new(Frontend::NativeWindow);
    assert_eq!(banner(t.clean_video()), Action::AppendLog("--- 开始处理: 视频格式 ---\r\n".to_string()));
    assert_eq!(banner(t.clean_audio()), Action::AppendLog("--- 开始处理: 音频格式 ---\r\n".to_string()));
    assert_eq!(banner(t.clean_playlist()), Action::AppendLog("--- 开始处理: 播放列表格式 ---\r\n".to_string()));
    let mut job = t.clean(MediaCategory::Video);
    job.next_action(true);
    assert_eq!(job.next_action(true), Action::DeleteClassesRootKey(".avi".to_string()));
}

#[test]
fn clean_all_labels_per_frontend() {
    let native: Vec<Action> = WinMediaUnbind::new(Frontend::NativeWindow).clean_all().into_iter().map(banner).collect();
    assert_eq!(
        native,
        vec![
            Action::AppendLog("--- 开始处理: 所有格式(视频) ---\r\n".to_string()),
            Action::AppendLog("--- 开始处理: 所有格式(音频) ---\r\n".to_string()),
            Action::AppendLog("--- 开始处理: 所有格式(播放列表) ---\r\n".to_string()),
        ]
    );
    let egui: Vec<Action> = WinMediaUnbind::default().clean_all().into_iter().map(banner).collect();
    let banner_all = || Action::AppendLog("--- 开始处理: 所有格式 ---\n".to_string());
    assert_eq!(egui, vec![banner_all(), banner_all(), banner_all()]);
}

#[test]
fn clean_all_orders_groups() {
    let jobs = WinMediaUnbind::default().clean_all();
    let firsts: Vec<Action> = jobs
        .into_iter()
        .map(|mut j| {
            j.next_action(true);
            j.next_action(true)
        })
        .collect();
    assert_eq!(
        firsts,
        vec![
            Action::DeleteClassesRootKey(".avi".to_string()),
            Action::DeleteClassesRootKey(".wav".to_string()),
            Action::DeleteClassesRootKey(".asx".to_string()),
        ]
    );
}

#[test]
fn log_only_grows_by_whole_lines() {
    let mut t = WinMediaUnbind::default();
    let mut states = vec![t.logs().to_string()];
    t.log("a");
    states.push(t.logs().to_string());
    t.open_link();
    states.push(t.logs().to_string());
    let mut job = t.clean(MediaCategory::Playlist);
    let mut ok = true;
    loop {
        match job.next_action(ok) {
            Action::AppendLog(text) => {
                assert!(text.ends_with('\n'));
                t.append_log(&text);
                states.push(t.logs().to_string());
            }
            Action::Finish => break,
            _ => {}
        }
        ok = !ok;
    }
    t.announce_ready();
    states.push(t.logs().to_string());
    for i in 0..states.len() {
        for j in i + 1..states.len() {
            assert!(states[j].starts_with(&states[i]));
            assert!(states[j].ends_with('\n'));
        }
    }
}
