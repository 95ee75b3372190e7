use big8k::presets::{default_preset_items, load_cmdx_list, save_cmdx_list, sort_presets, PresetSaveOutcome, PresetSource};
use big8k::results::CommandPresetItem;
use big8k::ssh::{ssh_connect, ssh_exec, SshExecOutcome};

fn s(x: &str) -> String {
    x.to_string()
}

fn item(index: usize, name: &str) -> CommandPresetItem {
    CommandPresetItem { index, name: s(name), content: s("") }
}

#[test]
fn default_presets_are_thirty_numbered_slots() {
    let items = default_preset_items();
    assert_eq!(items.len(), 30);
    assert_eq!((items[0].index, items[0].name.as_str(), items[0].content.as_str()), (0, "01-CMD", ""));
    assert_eq!((items[9].index, items[9].name.as_str()), (9, "10-CMD"));
    assert_eq!((items[29].index, items[29].name.as_str()), (29, "30-CMD"));
}

#[test]
fn presets_are_sorted_stably_by_index() {
    let sorted = sort_presets(&vec![item(3, "c"), item(1, "a"), item(3, "d"), item(0, "z")]);
    let got: Vec<(usize, String)> = sorted.into_iter().map(|p| (p.index, p.name)).collect();
    assert_eq!(got, vec![(0, s("z")), (1, s("a")), (3, s("c")), (3, s("d"))]);
}

#[test]
fn preset_loading() {
    let r = load_cmdx_list(PresetSource::Loaded { items: vec![item(2, "b"), item(1, "a")], legacy: None });
    assert!(r.success && r.error.is_none());
    assert_eq!(r.items.iter().map(|p| p.index).collect::<Vec<_>>(), vec![1, 2]);
    let r = load_cmdx_list(PresetSource::Loaded { items: vec![], legacy: Some(s("/p/cmdx_list.json")) });
    assert_eq!(r.items.len(), 30);
    assert_eq!(
        r.error.as_deref(),
        Some("已兼容读取旧命令清单文件: /p/cmdx_list.json；后续保存将写入新文件 command_presets.json")
    );
    let r = load_cmdx_list(PresetSource::Missing);
    assert!(r.success && r.items.len() == 30 && r.error.is_none());
    let r = load_cmdx_list(PresetSource::ReadFailed(s("io")));
    assert!(!r.success);
    assert_eq!(r.error.as_deref(), Some("读取命令清单失败: io"));
    let r = load_cmdx_list(PresetSource::ParseFailed(s("eof")));
    assert_eq!(r.error.as_deref(), Some("命令清单解析失败: eof"));
    assert_eq!(r.items[4].name, "05-CMD");
    let r = load_cmdx_list(PresetSource::PathsUnknown(s("no exe")));
    assert_eq!(r.error.as_deref(), Some("no exe"));
}

#[test]
fn preset_saving() {
    let r = save_cmdx_list(PresetSaveOutcome::Saved(s("/p/command_presets.json")));
    assert!(r.success);
    assert_eq!(r.output, "已保存命令清单: /p/command_presets.json");
    assert_eq!(save_cmdx_list(PresetSaveOutcome::SerializeFailed(s("x"))).error.as_deref(), Some("序列化命令清单失败: x"));
    assert_eq!(save_cmdx_list(PresetSaveOutcome::WriteFailed(s("y"))).error.as_deref(), Some("写入命令清单失败: y"));
    assert_eq!(save_cmdx_list(PresetSaveOutcome::PathsUnknown(s("z"))).error.as_deref(), Some("z"));
}

#[test]
fn ssh_results() {
    let r = ssh_connect("192.168.1.9", 22, "root", Ok(()));
    assert!(r.success);
    assert_eq!(r.output, "SSH connected to root@192.168.1.9:22");
    let r = ssh_connect("h", 22, "u", Err(s("SSH handshake failed: x")));
    assert_eq!(r.error.as_deref(), Some("SSH handshake failed: x"));
    let r = ssh_exec(SshExecOutcome::Finished { stdout: s("out"), stderr: s(" \n"), exit_code: 0 });
    assert!(r.success && r.error.is_none());
    assert_eq!(r.output, "out");
    let r = ssh_exec(SshExecOutcome::Finished { stdout: s(""), stderr: s("warn"), exit_code: 0 });
    assert!(r.success);
    assert_eq!(r.error.as_deref(), Some("warn"));
    let r = ssh_exec(SshExecOutcome::Finished { stdout: s(""), stderr: s(""), exit_code: -2 });
    assert!(!r.success);
    assert_eq!(r.error.as_deref(), Some("SSH command exited with code -2"));
    let r = ssh_exec(SshExecOutcome::Finished { stdout: s(""), stderr: s("bad"), exit_code: 3 });
    assert_eq!(r.error.as_deref(), Some("bad"));
    assert_eq!(ssh_exec(SshExecOutcome::ChannelFailed(s("c"))).error.as_deref(), Some("SSH channel open failed: c"));
    assert_eq!(ssh_exec(SshExecOutcome::ExecFailed(s("e"))).error.as_deref(), Some("SSH exec failed: e"));
    assert_eq!(ssh_exec(SshExecOutcome::SessionFailed(s("s"))).error.as_deref(), Some("s"));
}

#[test]
fn sorted_presets_sort_to_themselves() {
    let once = sort_presets(&vec![item(2, "b"), item(0, "x"), item(2, "a"), item(1, "y")]);
    let twice = sort_presets(&once);
    let names = |v: &Vec<CommandPresetItem>| v.iter().map(|p| (p.index, p.name.clone())).collect::<Vec<_>>();
    assert_eq!(names(&twice), names(&once));
    assert_eq!(names(&once), vec![(0, s("x")), (1, s("y")), (2, s("b")), (2, s("a"))]);
}

#[test]
fn saved_presets_load_back_ordered_by_index() {
    let items = vec![item(5, "e"), item(1, "a"), item(5, "f"), item(0, "z")];
    let written = sort_presets(&items);
    let r = load_cmdx_list(PresetSource::Loaded {
        items: written.iter().map(|p| item(p.index, &p.name)).collect(),
        legacy: None,
    });
    assert!(r.success && r.error.is_none());
    let names = |v: &Vec<CommandPresetItem>| v.iter().map(|p| (p.index, p.name.clone())).collect::<Vec<_>>();
    assert_eq!(names(&r.items), names(&written));
    assert_eq!(names(&r.items), vec![(0, s("z")), (1, s("a")), (5, s("e")), (5, s("f"))]);
}
