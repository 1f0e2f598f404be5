use agent_core::bash::{bash_report, SpawnResult};
use agent_core::filter::{is_allowed, plan_command};

#[test]
fn allows_exact_ls() {
    assert!(is_allowed("ls"));
}

#[test]
fn allows_ls_with_arguments() {
    assert!(is_allowed("ls -la"));
    assert!(is_allowed("ls /tmp"));
}

#[test]
fn allows_both_removal_forms() {
    assert!(is_allowed("rm README_old.md"));
    assert!(is_allowed("rm ./README_old.md"));
}

#[test]
fn rejects_everything_else() {
    assert!(!is_allowed("rm -rf /"));
    assert!(!is_allowed("lsblk"));
    assert!(!is_allowed("cat README_old.md"));
    assert!(!is_allowed("rm README.md"));
    assert!(!is_allowed(""));
}

#[test]
fn plan_normalizes_whitespace() {
    let plan = plan_command("   ls    -la\t\n ");
    assert_eq!(plan.len(), 1);
    assert_eq!(plan[0].text, "ls -la");
    assert!(plan[0].allowed);
}

#[test]
fn plan_splits_on_both_separators() {
    let plan = plan_command("ls; ls -la & rm README_old.md");
    assert_eq!(plan.len(), 3);
    assert_eq!(plan[0].text, "ls");
    assert_eq!(plan[1].text, "ls -la");
    assert_eq!(plan[2].text, "rm README_old.md");
    assert!(plan.iter().all(|g| g.allowed));
}

#[test]
fn plan_drops_empty_segments() {
    let plan = plan_command("ls;;; &");
    assert_eq!(plan.len(), 1);
    assert_eq!(plan[0].text, "ls");
}

#[test]
fn plan_classifies_mixed_command() {
    let plan = plan_command("ls; rm -rf /");
    assert_eq!(plan.len(), 2);
    assert!(plan[0].allowed);
    assert!(!plan[1].allowed);
}

#[test]
fn all_allowed_segments_report_success() {
    let spawns = vec![
        SpawnResult::Finished { stdout: String::from("a.txt\n"), stderr: String::new() },
        SpawnResult::Finished { stdout: String::from("total 0\n"), stderr: String::new() },
    ];
    let r = bash_report("ls; ls -la", &spawns);
    assert_eq!(
        r,
        Ok(String::from("Command: 'ls'\na.txt\n\n---\nCommand: 'ls -la'\ntotal 0\n"))
    );
}

#[test]
fn all_rejected_segments_report_failure() {
    let r = bash_report("rm -rf / & cat secrets", &Vec::new());
    assert_eq!(
        r,
        Err(String::from(
            "No allowed commands executed. Details:\nCommand suppressed: 'rm -rf /'\nCommand suppressed: 'cat secrets'"
        ))
    );
}

#[test]
fn mixed_command_reports_success_with_suppression() {
    let spawns = vec![SpawnResult::Finished {
        stdout: String::from("files\n"),
        stderr: String::new(),
    }];
    let r = bash_report("ls; rm -rf /", &spawns);
    assert_eq!(
        r,
        Ok(String::from("Command: 'ls'\nfiles\n\n---\nCommand suppressed: 'rm -rf /'"))
    );
}

#[test]
fn stderr_is_appended_under_marker() {
    let spawns = vec![SpawnResult::Finished {
        stdout: String::from("out\n"),
        stderr: String::from("warning\n"),
    }];
    let r = bash_report("ls", &spawns);
    assert_eq!(r, Ok(String::from("Command: 'ls'\nout\n\nSTDERR:\nwarning\n")));
}

#[test]
fn spawn_failure_alone_reports_failure() {
    let spawns = vec![SpawnResult::SpawnError { error: String::from("boom") }];
    let r = bash_report("ls", &spawns);
    assert_eq!(
        r,
        Err(String::from(
            "No allowed commands executed. Details:\nFailed to execute 'ls': boom"
        ))
    );
}

#[test]
fn empty_command_reports_failure() {
    let r = bash_report("", &Vec::new());
    assert_eq!(r, Err(String::from("No allowed commands executed. Details:\n")));
}
