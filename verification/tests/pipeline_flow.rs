use commit_prompt::pipeline::Action;
use commit_prompt::pipeline::ErrKind;
use commit_prompt::pipeline::Event;
use commit_prompt::pipeline::Pipeline;
use commit_prompt::validator::DescriptionValidator;
use commit_prompt::validator::Verdict;

fn lists() -> (Vec<String>, Vec<String>) {
    (
        vec![String::from("feat"), String::from("fix")],
        vec![String::from("none"), String::from("api")],
    )
}

#[test]
fn cancelling_type_menu_aborts() {
    let (types, scopes) = lists();
    let p = Pipeline::new(types, scopes);
    let (_, action) = p.step(Event::SelectionCancelled);
    assert!(matches!(action, Action::Abort));
}

#[test]
fn cancelling_scope_menu_aborts() {
    let (types, scopes) = lists();
    let p = Pipeline::new(types, scopes);
    let (p, action) = p.step(Event::Selected { index: 0 });
    assert!(matches!(action, Action::PromptScope));
    let (_, action) = p.step(Event::SelectionCancelled);
    assert!(matches!(action, Action::Abort));
}

#[test]
fn declining_longer_description_skips_editor() {
    let (types, scopes) = lists();
    let p = Pipeline::new(types, scopes);
    let (p, _) = p.step(Event::Selected { index: 0 });
    let (p, _) = p.step(Event::Selected { index: 0 });
    let (p, _) = p.step(Event::DescriptionEntered { text: String::from("add a thing") });
    let (p, action) = p.step(Event::LongWanted { yes: false });
    // Straight to the ticket prompt: the editor is never opened.
    assert!(matches!(action, Action::PromptTicket));
    let (_, action) = p.step(Event::TicketEntered { text: String::new() });
    match action {
        Action::Deliver { inputs } => {
            assert_eq!(inputs.long_description, "");
            assert_eq!(inputs.ticket, "");
        }
        _ => panic!("expected the assembled record"),
    }
}

#[test]
fn editor_text_is_filtered_into_record() {
    let (types, scopes) = lists();
    let p = Pipeline::new(types, scopes);
    let (p, _) = p.step(Event::Selected { index: 1 });
    let (p, _) = p.step(Event::Selected { index: 0 });
    let (p, _) = p.step(Event::DescriptionEntered { text: String::from("fix a bug") });
    let (p, action) = p.step(Event::LongWanted { yes: true });
    assert!(matches!(action, Action::OpenEditor));
    let (p, _) = p.step(Event::Edited { text: String::from("# hint\nbody1\n#also comment\nbody2") });
    let (_, action) = p.step(Event::TicketEntered { text: String::from("ABC-123") });
    match action {
        Action::Deliver { inputs } => {
            assert_eq!(inputs.change_type, "fix");
            assert_eq!(inputs.scope, "none");
            assert_eq!(inputs.description, "fix a bug");
            assert_eq!(inputs.long_description, "body1\nbody2\n");
            assert_eq!(inputs.breaking_changes, "");
            assert_eq!(inputs.ticket, "ABC-123");
        }
        _ => panic!("expected the assembled record"),
    }
}

#[test]
fn full_run_with_scope_budget() {
    let (types, scopes) = lists();
    let p = Pipeline::new(types, scopes);
    let (p, _) = p.step(Event::Selected { index: 0 });
    let (p, action) = p.step(Event::Selected { index: 1 });
    // "feat" is 4 characters (+2), "api" is 3 (+2): 50 - 6 - 5 = 39.
    let budget = match action {
        Action::PromptDescription { budget } => budget,
        _ => panic!("expected the description prompt"),
    };
    assert_eq!(budget, 39);

    let mut v = DescriptionValidator::new(budget);
    let ok = "x".repeat(39);
    assert!(matches!(v.check(&ok), Verdict::Accepted));
    let over = "y".repeat(40);
    assert!(matches!(v.check(&over), Verdict::Rejected { budget: 39, len: 40 }));
    assert!(matches!(v.check(&over), Verdict::Accepted));

    let (p, _) = p.step(Event::DescriptionEntered { text: over.clone() });
    let (p, _) = p.step(Event::LongWanted { yes: false });
    let (_, action) = p.step(Event::TicketEntered { text: String::from("DEF-9") });
    match action {
        Action::Deliver { inputs } => {
            assert_eq!(inputs.change_type, "feat");
            assert_eq!(inputs.scope, "api");
            assert_eq!(inputs.description, over);
            assert_eq!(inputs.ticket, "DEF-9");
        }
        _ => panic!("expected the assembled record"),
    }
}

#[test]
fn failed_type_menu_reports_its_question() {
    let (types, scopes) = lists();
    let p = Pipeline::new(types, scopes);
    let (_, action) = p.step(Event::SelectionFailed);
    assert!(matches!(action, Action::Fail { kind: ErrKind::TypeSelectPrompt }));
}

#[test]
fn failed_scope_menu_reports_its_question() {
    let (types, scopes) = lists();
    let p = Pipeline::new(types, scopes);
    let (p, _) = p.step(Event::Selected { index: 1 });
    let (_, action) = p.step(Event::SelectionFailed);
    assert!(matches!(action, Action::Fail { kind: ErrKind::ScopeSelectPrompt }));
}

#[test]
fn failed_prompt_reports_failure() {
    let (types, scopes) = lists();
    let p = Pipeline::new(types, scopes);
    let (p, _) = p.step(Event::Selected { index: 0 });
    let (p, _) = p.step(Event::Selected { index: 0 });
    let (_, action) = p.step(Event::DescriptionFailed);
    assert!(matches!(action, Action::Fail { .. }));
}
