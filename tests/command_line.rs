use winpe_agent::command::{
    build_command_line, build_environment_block, init_input, merge_environment, session_command_line, sort_texts, to_wide,
    utf8_init_line,
};
use winpe_agent::types::{SessionCreateRequest, SessionInit, Shell};

fn pair(k: &str, v: &str) -> (String, String) {
    (k.to_string(), v.to_string())
}

fn wide_entries(texts: &[&str]) -> Vec<u16> {
    let mut out = Vec::new();
    for t in texts {
        out.extend(t.encode_utf16());
        out.push(0);
    }
    out.push(0);
    out
}

#[test]
fn cmd_command_line_quotes_arguments_with_spaces() {
    let args = vec!["a".to_string(), "b c".to_string()];
    assert_eq!(build_command_line("echo", &args, Shell::Cmd), "cmd.exe /c echo a \"b c\"");
}

#[test]
fn powershell_command_line() {
    let args = vec!["-x".to_string()];
    assert_eq!(
        build_command_line("Get-Item", &args, Shell::Powershell),
        "powershell.exe -NoLogo -NoProfile -Command Get-Item -x"
    );
}

#[test]
fn command_line_without_arguments() {
    assert_eq!(build_command_line("echo hi", &[], Shell::Cmd), "cmd.exe /c echo hi");
}

#[test]
fn wide_string_is_zero_terminated_utf16() {
    assert_eq!(to_wide("ab"), vec![0x61, 0x62, 0]);
    assert_eq!(to_wide(""), vec![0]);
    assert_eq!(to_wide("\u{1F600}"), vec![0xD83D, 0xDE00, 0]);
    assert_eq!(to_wide("é"), vec![0xE9, 0]);
}

#[test]
fn overrides_replace_and_append() {
    let inherited = vec![pair("PATH", "C:\\"), pair("TEMP", "x")];
    let overrides = vec![pair("TEMP", "y"), pair("NEW", "1"), pair("NEW", "2")];
    let merged = merge_environment(&inherited, &overrides);
    assert_eq!(merged, vec![pair("PATH", "C:\\"), pair("TEMP", "y"), pair("NEW", "2")]);
}

#[test]
fn override_names_compare_case_sensitively() {
    let inherited = vec![pair("Path", "a")];
    let overrides = vec![pair("PATH", "b")];
    let merged = merge_environment(&inherited, &overrides);
    assert_eq!(merged, vec![pair("Path", "a"), pair("PATH", "b")]);
}

#[test]
fn environment_block_is_sorted_and_double_terminated() {
    let inherited = vec![pair("ZED", "1"), pair("ALPHA", "2")];
    let overrides = vec![pair("MID", "3")];
    let block = build_environment_block(&inherited, &overrides);
    assert_eq!(block, wide_entries(&["ALPHA=2", "MID=3", "ZED=1"]));
}

#[test]
fn empty_environment_block() {
    assert_eq!(build_environment_block(&vec![], &vec![]), vec![0]);
}

#[test]
fn sort_orders_by_code_point() {
    let items = vec!["b".to_string(), "a=1".to_string(), "a".to_string(), "B".to_string()];
    assert_eq!(sort_texts(items), vec!["B", "a", "a=1", "b"]);
}

#[test]
fn session_shell_command_lines() {
    assert_eq!(session_command_line(Shell::Cmd), "cmd.exe");
    assert_eq!(session_command_line(Shell::Powershell), "powershell.exe -NoLogo -NoProfile");
}

#[test]
fn utf8_init_lines() {
    assert_eq!(utf8_init_line(Shell::Cmd), b"chcp 65001\r\n".to_vec());
    let ps = utf8_init_line(Shell::Powershell);
    assert!(ps.starts_with(b"[Console]::InputEncoding=[Text.UTF8Encoding]::UTF8;"));
    assert!(ps.ends_with(b"[Console]::OutputEncoding=[Text.UTF8Encoding]::UTF8\r\n"));
}

#[test]
fn session_input_seed_follows_force_utf8() {
    let mut req = SessionCreateRequest {
        shell: Shell::Cmd,
        cwd: None,
        env: vec![],
        cols: 80,
        rows: 24,
        idle_timeout_sec: 60,
        init: SessionInit { force_utf8: true },
    };
    assert_eq!(init_input(&req), Some(b"chcp 65001\r\n".to_vec()));
    req.shell = Shell::Powershell;
    assert_eq!(init_input(&req), Some(utf8_init_line(Shell::Powershell)));
    req.init.force_utf8 = false;
    assert_eq!(init_input(&req), None);
}
