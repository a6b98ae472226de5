use catfish::history::record_after_line;
use catfish::pipeline::PipelineRun;

fn b(s: &str) -> Vec<u8> {
    s.as_bytes().to_vec()
}

#[test]
fn executed_lines_are_recorded_in_submission_order() {
    let mut hist: Vec<Vec<u8>> = vec![b("old entry")];
    record_after_line(&mut hist, &b("ls -la"), false);
    record_after_line(&mut hist, &b("grep foo"), false);
    assert_eq!(hist, vec![b("old entry"), b("ls -la"), b("grep foo")]);
}

#[test]
fn a_line_whose_spawn_failed_is_still_recorded() {
    // the walk reports what to do; the spawn outcome never reaches the
    // history rule
    let mut run = PipelineRun::new(&b("cd /nonexistent"));
    let _ = run.next_action();
    assert!(run.should_append());
    let mut hist: Vec<Vec<u8>> = Vec::new();
    record_after_line(&mut hist, &b("cd /nonexistent"), run.has_exited());
    assert_eq!(hist, vec![b("cd /nonexistent")]);
}

#[test]
fn exit_leaves_no_history_entry() {
    let mut hist: Vec<Vec<u8>> = vec![b("ls")];
    record_after_line(&mut hist, &b("exit"), true);
    assert_eq!(hist, vec![b("ls")]);
}

#[test]
fn blank_lines_leave_no_history_entry() {
    let mut hist: Vec<Vec<u8>> = Vec::new();
    record_after_line(&mut hist, &b("   "), false);
    record_after_line(&mut hist, &b(""), false);
    assert_eq!(hist, Vec::<Vec<u8>>::new());
}
