use compaudit_fix::identity::Identity;
use compaudit_fix::identity::IdentityFault;
use compaudit_fix::identity::UsernameLookup;
use compaudit_fix::listing::interpret_audit_output;
use compaudit_fix::listing::parse_problem_list;
use compaudit_fix::listing::ListingFault;
use compaudit_fix::listing::ProblemPath;
use compaudit_fix::plan::StepKind;
use compaudit_fix::run::begin_remediation;
use compaudit_fix::run::remediate_as_current_user;
use compaudit_fix::run::run_remediation;
use compaudit_fix::run::RemediationError;
use compaudit_fix::run::StepOutcome;

fn path(s: &str) -> ProblemPath {
    ProblemPath { bytes: s.as_bytes().to_vec() }
}

fn listed(r: &[ProblemPath]) -> Vec<Vec<u8>> {
    r.iter().map(|p| p.bytes.clone()).collect()
}

#[test]
fn it_does_nothing_on_no_errors() {
    let r = run_remediation(
        Ok(Vec::new()),
        UsernameLookup::Found(String::from("alice")),
        &Vec::new(),
    );
    assert_eq!(true, r.is_ok())
}

#[test]
fn on_getting_the_list_failing_we_raise_that() {
    assert_eq!(
        true,
        remediate_as_current_user(Err(String::from("test")), &Vec::new()).is_err()
    )
}

#[test]
fn parse_trims_and_splits_lines() {
    let r = parse_problem_list(b"  /usr/share/zsh \n/home/me/comp\n");
    assert_eq!(
        listed(&r),
        vec![b"/usr/share/zsh".to_vec(), b"/home/me/comp".to_vec()]
    );
}

#[test]
fn parse_drops_blank_lines() {
    let r = parse_problem_list(b"\n   \n/x\n\n\t\n");
    assert_eq!(listed(&r), vec![b"/x".to_vec()]);
}

#[test]
fn parse_empty_output_lists_nothing() {
    let r = parse_problem_list(b"");
    assert_eq!(listed(&r), Vec::<Vec<u8>>::new());
}

#[test]
fn parse_takes_a_last_line_without_newline() {
    let r = parse_problem_list(b"/a\n/b");
    assert_eq!(listed(&r), vec![b"/a".to_vec(), b"/b".to_vec()]);
}

#[test]
fn parse_strips_carriage_returns() {
    let r = parse_problem_list(b"/a\r\n\t/b \r\n");
    assert_eq!(listed(&r), vec![b"/a".to_vec(), b"/b".to_vec()]);
}

#[test]
fn signal_terminated_audit_fails_the_listing() {
    let r = interpret_audit_output(None, b"/x\n");
    assert!(matches!(r, Err(ListingFault::SignalTerminated)));
}

#[test]
fn nonzero_audit_exit_still_lists() {
    let r = interpret_audit_output(Some(1), b"/x\n").unwrap();
    assert_eq!(listed(&r), vec![b"/x".to_vec()]);
}

#[test]
fn resolving_a_found_name_keeps_it() {
    let id = Identity::resolve(UsernameLookup::Found(String::from("alice"))).unwrap();
    assert_eq!(id.name().as_str(), "alice");
}

#[test]
fn resolving_an_empty_name_is_a_fault() {
    let r = Identity::resolve(UsernameLookup::Found(String::new()));
    assert!(matches!(r, Err(IdentityFault::EmptyName)));
}

#[test]
fn resolving_without_a_user_is_a_fault() {
    let r = Identity::resolve(UsernameLookup::Unavailable);
    assert!(matches!(r, Err(IdentityFault::Unavailable)));
}

#[test]
fn resolving_a_non_text_name_is_a_fault() {
    let r = Identity::resolve(UsernameLookup::NotText);
    assert!(matches!(r, Err(IdentityFault::NotText)));
}

#[test]
fn a_listing_failure_is_returned_unchanged() {
    let r = begin_remediation(
        Err(String::from("boom")),
        UsernameLookup::Found(String::from("alice")),
    );
    match r {
        Err(RemediationError::Listing(m)) => assert_eq!(m, "boom"),
        _ => panic!("expected the listing failure back"),
    }
}

#[test]
fn an_identity_fault_aborts_even_an_empty_run() {
    let r = begin_remediation(Ok(Vec::new()), UsernameLookup::Unavailable);
    assert!(matches!(
        r,
        Err(RemediationError::Identity(IdentityFault::Unavailable))
    ));
}

#[test]
fn an_empty_listing_is_complete_at_once() {
    let run = begin_remediation(Ok(Vec::new()), UsernameLookup::Found(String::from("alice")))
        .unwrap();
    assert!(run.is_complete());
}

#[test]
fn steps_come_ordered_per_path_owner_first() {
    let paths = vec![path("/a"), path("/b")];
    let mut run =
        begin_remediation(Ok(paths), UsernameLookup::Found(String::from("alice"))).unwrap();
    assert_eq!(run.username().as_str(), "alice");
    let mut seen: Vec<(StepKind, Vec<u8>)> = Vec::new();
    while !run.is_complete() {
        let (kind, p) = run.current();
        seen.push((kind, p.bytes.clone()));
        run.record(StepOutcome::Exited(0)).unwrap();
    }
    assert_eq!(
        seen,
        vec![
            (StepKind::ChangeOwner, b"/a".to_vec()),
            (StepKind::StripGroupWrite, b"/a".to_vec()),
            (StepKind::StripOtherWrite, b"/a".to_vec()),
            (StepKind::ChangeOwner, b"/b".to_vec()),
            (StepKind::StripGroupWrite, b"/b".to_vec()),
            (StepKind::StripOtherWrite, b"/b".to_vec()),
        ]
    );
}

#[test]
fn a_refused_step_fails_the_run_and_names_it() {
    let paths = vec![path("/a"), path("/b")];
    let outcomes = vec![
        StepOutcome::Exited(0),
        StepOutcome::Exited(1),
        StepOutcome::Exited(0),
        StepOutcome::Exited(0),
        StepOutcome::Exited(0),
        StepOutcome::Exited(0),
    ];
    let r = run_remediation(
        Ok(paths),
        UsernameLookup::Found(String::from("alice")),
        &outcomes,
    );
    match r {
        Err(RemediationError::Execution { kind, path, outcome }) => {
            assert_eq!(kind, StepKind::StripGroupWrite);
            assert_eq!(path.bytes, b"/a".to_vec());
            assert_eq!(outcome, StepOutcome::Exited(1));
        }
        _ => panic!("expected the failing step back"),
    }
}

#[test]
fn a_signalled_step_fails_the_run() {
    let paths = vec![path("/a")];
    let outcomes = vec![
        StepOutcome::Signalled,
        StepOutcome::Exited(0),
        StepOutcome::Exited(0),
    ];
    let r = run_remediation(
        Ok(paths),
        UsernameLookup::Found(String::from("alice")),
        &outcomes,
    );
    match r {
        Err(RemediationError::Execution { kind, path, outcome }) => {
            assert_eq!(kind, StepKind::ChangeOwner);
            assert_eq!(path.bytes, b"/a".to_vec());
            assert_eq!(outcome, StepOutcome::Signalled);
        }
        _ => panic!("expected the signalled step back"),
    }
}

#[test]
fn a_step_that_cannot_launch_fails_the_run() {
    let paths = vec![path("/a")];
    let outcomes = vec![
        StepOutcome::LaunchFailed,
        StepOutcome::Exited(0),
        StepOutcome::Exited(0),
    ];
    let r = run_remediation(
        Ok(paths),
        UsernameLookup::Found(String::from("alice")),
        &outcomes,
    );
    assert!(matches!(
        r,
        Err(RemediationError::Execution { outcome: StepOutcome::LaunchFailed, .. })
    ));
}

#[test]
fn an_uneventful_run_repeats_without_errors() {
    for _ in 0..2 {
        let paths = vec![path("/already/fixed")];
        let outcomes = vec![
            StepOutcome::Exited(0),
            StepOutcome::Exited(0),
            StepOutcome::Exited(0),
        ];
        let r = run_remediation(
            Ok(paths),
            UsernameLookup::Found(String::from("alice")),
            &outcomes,
        );
        assert!(r.is_ok());
    }
}
