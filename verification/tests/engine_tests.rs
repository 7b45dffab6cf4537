use flowtee::cfg::{LinkTarget, Links, RemoteTarget, Workflow, WorkflowStep};
use flowtee::engine::{
    FollowUp, RunError, StartPlan, StepExecution, effective_size, plan_step, run_step,
};
use flowtee::registry::ProcessGroupRegistry;
use flowtee::remote::{careful_run_command, pane_target, reinvoke_command};

fn plain_step(name: &str, command: &str) -> WorkflowStep {
    WorkflowStep {
        name: name.to_string(),
        command: command.to_string(),
        scan_ok: None,
        scan_err: None,
        pwd: None,
        output_file: None,
        remote: None,
        links: None,
        final_step: false,
    }
}

fn empty_links() -> Links {
    Links {
        on_ok: None,
        on_err: None,
        on_scan_ok: None,
        on_scan_err: None,
        on_exit_ok: None,
        on_exit_err: None,
    }
}

#[test]
fn scan_match_launches_follow_on_exactly_once() {
    // step A echoes hello, scans for it, and links the scan match to B;
    // step B is final and leads nowhere further
    let mut step_a = plain_step("A", "echo hello");
    step_a.scan_ok = Some("hello".to_string());
    let mut links = empty_links();
    links.on_scan_ok = Some(LinkTarget::Step("B".to_string()));
    step_a.links = Some(links);
    let mut step_b = plain_step("B", "echo world");
    step_b.final_step = true;

    let mut run_a = StepExecution::new(&step_a);
    match run_a.on_chunk(b"hello\r\n") {
        Some(FollowUp::RunStep(n)) => assert_eq!(n, "B"),
        other => panic!("expected a concurrent launch of B, got {:?}", other),
    }
    // the match keeps arriving, but only the first recording launches
    assert!(run_a.on_chunk(b"hello again").is_none());
    assert!(run_a.on_exit(0).is_none());

    let mut run_b = StepExecution::new(&step_b);
    assert!(run_b.on_chunk(b"world\r\n").is_none());
    assert!(run_b.on_exit(0).is_none());
}

#[test]
fn nonzero_exit_without_links_resolves_nothing() {
    let step = plain_step("lonely", "exit 7");
    let mut run = StepExecution::new(&step);
    assert!(run.on_chunk(b"").is_none());
    assert!(run.on_exit(7).is_none());
}

#[test]
fn scan_end_link_carries_error_code() {
    let mut step = plain_step("guard", "tail -f log");
    step.scan_err = Some("panic".to_string());
    let mut links = empty_links();
    links.on_scan_err = Some(LinkTarget::End);
    step.links = Some(links);
    let mut run = StepExecution::new(&step);
    match run.on_chunk(b"a panic") {
        Some(FollowUp::EndRun(code)) => assert_eq!(code, 1),
        other => panic!("expected an end action, got {:?}", other),
    }
}

#[test]
fn remote_step_is_dispatched_not_run() {
    let mut step = plain_step("deploy", "make deploy");
    step.remote = Some(RemoteTarget {
        sess: "work".to_string(),
        win: "3".to_string(),
        fish_vi_mode: false,
    });
    match plan_step(&step, "docx", false, None) {
        StartPlan::Remote(cmds) => {
            assert_eq!(
                cmds,
                vec![
                    vec!["send-keys", "-t", "work:3", "-X", "cancel"],
                    vec!["send-keys", "-t", "work:3", "flowtee step -l -w docx -s deploy"],
                    vec!["send-keys", "-t", "work:3", "Enter"],
                ]
            );
        }
        StartPlan::Local(_) => panic!("expected a remote dispatch"),
    }
}

#[test]
fn local_only_run_skips_remote_dispatch() {
    let mut step = plain_step("deploy", "make deploy");
    step.remote = Some(RemoteTarget {
        sess: "work".to_string(),
        win: "3".to_string(),
        fish_vi_mode: true,
    });
    step.pwd = Some("/tmp".to_string());
    match plan_step(&step, "docx", true, Some((120, 40))) {
        StartPlan::Local(l) => {
            assert_eq!(l.program, "sh");
            assert_eq!(l.args, vec!["-c", "make deploy"]);
            assert_eq!(l.pwd.as_deref(), Some("/tmp"));
            assert_eq!(l.output_file, None);
            assert_eq!((l.cols, l.rows), (120, 40));
        }
        StartPlan::Remote(_) => panic!("expected a local run"),
    }
}

#[test]
fn terminal_size_falls_back_to_80_by_24() {
    assert_eq!(effective_size(Some((132, 50))), (132, 50));
    assert_eq!(effective_size(None), (80, 24));
}

#[test]
fn run_step_reports_missing_step() {
    let w = Workflow {
        steps: vec![plain_step("a", "true")],
    };
    match run_step(&w, &"ghost".to_string(), "docx", false, None) {
        Err(RunError::StepNotFound(n)) => assert_eq!(n, "ghost"),
        other => panic!("expected step-not-found, got {:?}", other.is_ok()),
    }
}

#[test]
fn run_step_plans_the_named_step() {
    let mut with_output = plain_step("b", "make");
    with_output.output_file = Some("build.log".to_string());
    let w = Workflow {
        steps: vec![plain_step("a", "true"), with_output],
    };
    let (plan, step) = run_step(&w, &"b".to_string(), "docx", false, None).expect("b exists");
    assert_eq!(step.name, "b");
    match plan {
        StartPlan::Local(l) => {
            assert_eq!(l.args, vec!["-c", "make"]);
            assert_eq!(l.output_file.as_deref(), Some("build.log"));
            assert_eq!((l.cols, l.rows), (80, 24));
        }
        StartPlan::Remote(_) => panic!("expected a local run"),
    }
}

#[test]
fn careful_run_command_sends_three_sequences() {
    let target = pane_target("main", "0");
    assert_eq!(target, "main:0");
    let cmd = reinvoke_command("docx", "build");
    assert_eq!(cmd, "flowtee step -l -w docx -s build");
    let cmds = careful_run_command(&target, &cmd, false);
    assert_eq!(cmds.len(), 3);
    assert_eq!(cmds[0], vec!["send-keys", "-t", "main:0", "-X", "cancel"]);
    assert_eq!(
        cmds[1],
        vec!["send-keys", "-t", "main:0", "flowtee step -l -w docx -s build"]
    );
    assert_eq!(cmds[2], vec!["send-keys", "-t", "main:0", "Enter"]);
}

#[test]
fn registry_appends_and_snapshots_in_order() {
    let mut reg = ProcessGroupRegistry::new();
    assert_eq!(reg.snapshot(), Vec::<u32>::new());
    reg.register(101);
    reg.register(205);
    reg.register(101);
    assert_eq!(reg.snapshot(), vec![101, 205, 101]);
    // nothing is ever removed
    assert_eq!(reg.groups.len(), 3);
}
