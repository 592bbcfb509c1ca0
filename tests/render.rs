use mathbot::{
    engine_diagnostic, first_line, reply_for, source_document, Action, Event, Phase,
    RenderOutcome, RenderSession, Reply, ATTACHMENT_NAME, GENERIC_ERROR,
};

/// Feeds `events` to a fresh session and returns every action it asked for.
fn drive(expression: &str, events: Vec<Event>) -> (RenderSession, Vec<Action>) {
    let (mut session, first) = RenderSession::start(expression);
    let mut actions = vec![first];
    for e in events {
        if session.is_done() {
            break;
        }
        actions.push(session.step(e));
    }
    (session, actions)
}

fn releases(actions: &[Action]) -> usize {
    actions.iter().filter(|a| matches!(a, Action::ReleaseWorkspace)).count()
}

#[test]
fn first_line_stops_at_newline() {
    assert_eq!(first_line("ab\ncd"), "ab");
    assert_eq!(first_line("error: x\n  more\n  and more"), "error: x");
}

#[test]
fn first_line_edge_cases() {
    assert_eq!(first_line(""), "");
    assert_eq!(first_line("no newline"), "no newline");
    assert_eq!(first_line("\nafter"), "");
    assert_eq!(first_line("é√\nz"), "é√");
}

#[test]
fn diagnostic_keeps_only_first_line() {
    let stderr = b"error: unclosed delimiter\n  \xe2\x94\x8c\xe2\x94\x80 math.typ:4:3\n".to_vec();
    assert_eq!(engine_diagnostic(stderr), "error: unclosed delimiter");
}

#[test]
fn diagnostic_of_invalid_utf8_is_empty() {
    assert_eq!(engine_diagnostic(vec![0xff, b'a', b'\n']), "");
    assert_eq!(engine_diagnostic(vec![]), "");
}

#[test]
fn document_wraps_expression() {
    let doc = source_document("x^2 + y^2 = z^2");
    assert_eq!(
        doc,
        "\n#set page(margin: 0.5cm, width: auto, height: auto, fill: none)\n#set text(fill: white, size: 0.7cm)\n$ x^2 + y^2 = z^2 $\n        "
    );
}

#[test]
fn document_does_not_escape() {
    let doc = source_document("$$$invalid$$$");
    assert!(doc.contains("$ $$$invalid$$$ $"));
}

#[test]
fn reply_for_each_outcome() {
    assert_eq!(
        reply_for(RenderOutcome::Artifact(vec![1, 2, 3])),
        Reply::Attachment { name: ATTACHMENT_NAME.to_string(), bytes: vec![1, 2, 3] }
    );
    assert_eq!(
        reply_for(RenderOutcome::InputError("error: bad".to_string())),
        Reply::Text("**Invalid Typst Math Syntax**\nerror: bad".to_string())
    );
    assert_eq!(
        reply_for(RenderOutcome::InfrastructureError("/tmp/x: permission denied".to_string())),
        Reply::Text("An Error occured. Please contact the bot developer.".to_string())
    );
}

#[test]
fn successful_render_returns_engine_bytes() {
    let png = vec![0x89, b'P', b'N', b'G', 0, 7];
    let (session, actions) = drive(
        "x^2 + y^2 = z^2",
        vec![
            Event::Completed,
            Event::Completed,
            Event::EngineExited { success: true, stderr: vec![] },
            Event::ArtifactRead(png.clone()),
            Event::Completed,
        ],
    );
    assert!(session.is_done());
    assert_eq!(actions.len(), 6);
    assert_eq!(actions[0], Action::CreateWorkspace);
    assert_eq!(actions[1], Action::WriteSource(source_document("x^2 + y^2 = z^2")));
    assert_eq!(actions[2], Action::RunEngine);
    assert_eq!(actions[3], Action::ReadArtifact);
    assert_eq!(actions[4], Action::ReleaseWorkspace);
    assert_eq!(actions[5], Action::Finish(RenderOutcome::Artifact(png)));
}

#[test]
fn invalid_expression_gives_first_line_of_stderr() {
    let stderr = b"error: unexpected dollar sign\n  at math.typ:4:4\n  hint: ...\n".to_vec();
    let (_, actions) = drive(
        "$$$invalid$$$",
        vec![
            Event::Completed,
            Event::Completed,
            Event::EngineExited { success: false, stderr },
            Event::Completed,
        ],
    );
    assert_eq!(actions[3], Action::ReleaseWorkspace);
    match &actions[4] {
        Action::Finish(RenderOutcome::InputError(m)) => {
            assert_eq!(m, "error: unexpected dollar sign");
            assert!(!m.is_empty());
            assert!(!m.contains('\n'));
        }
        other => panic!("unexpected action {:?}", other),
    }
    assert_eq!(releases(&actions), 1);
}

#[test]
fn missing_engine_gives_generic_message() {
    let raw = "No such file or directory (os error 2)".to_string();
    let (session, actions) = drive(
        "x",
        vec![Event::Completed, Event::Completed, Event::Failed(raw.clone()), Event::Completed],
    );
    assert!(session.is_done());
    assert_eq!(actions[3], Action::ReleaseWorkspace);
    let outcome = match actions.last() {
        Some(Action::Finish(o)) => o.clone(),
        other => panic!("unexpected action {:?}", other),
    };
    assert_eq!(outcome, RenderOutcome::InfrastructureError(raw.clone()));
    match reply_for(outcome) {
        Reply::Text(t) => {
            assert_eq!(t, GENERIC_ERROR);
            assert!(!t.contains(&raw));
        }
        other => panic!("unexpected reply {:?}", other),
    }
}

#[test]
fn workspace_failure_finishes_without_release() {
    let (session, actions) = drive("x", vec![Event::Failed("disk full".to_string())]);
    assert!(session.is_done());
    assert_eq!(releases(&actions), 0);
    assert_eq!(
        actions[1],
        Action::Finish(RenderOutcome::InfrastructureError("disk full".to_string()))
    );
}

#[test]
fn write_failure_releases_workspace() {
    let (session, actions) = drive(
        "x",
        vec![Event::Completed, Event::Failed("write".to_string()), Event::Completed],
    );
    assert!(session.is_done());
    assert_eq!(actions[2], Action::ReleaseWorkspace);
    assert_eq!(releases(&actions), 1);
}

#[test]
fn missing_artifact_is_infrastructure_error() {
    let (_, actions) = drive(
        "x",
        vec![
            Event::Completed,
            Event::Completed,
            Event::EngineExited { success: true, stderr: vec![] },
            Event::Failed("math.png not found".to_string()),
            Event::Completed,
        ],
    );
    assert_eq!(actions[4], Action::ReleaseWorkspace);
    assert_eq!(
        actions[5],
        Action::Finish(RenderOutcome::InfrastructureError("math.png not found".to_string()))
    );
}

#[test]
fn every_path_releases_once_and_finishes() {
    let paths: Vec<Vec<Event>> = vec![
        vec![Event::Failed("a".to_string())],
        vec![Event::Completed, Event::Failed("b".to_string())],
        vec![Event::Completed, Event::Completed, Event::Failed("c".to_string())],
        vec![Event::Completed, Event::Completed, Event::EngineExited { success: false, stderr: vec![] }],
        vec![Event::Completed, Event::Completed, Event::EngineExited { success: true, stderr: vec![] }, Event::ArtifactRead(vec![])],
        vec![Event::Completed, Event::Completed, Event::ArtifactRead(vec![1])],
    ];
    for (i, mut events) in paths.into_iter().enumerate() {
        while events.len() < 5 {
            events.push(Event::Completed);
        }
        let (session, actions) = drive("x", events);
        assert!(session.is_done());
        assert_eq!(session.phase(), Phase::Done);
        assert!(matches!(actions.last(), Some(Action::Finish(_))));
        assert_eq!(releases(&actions), if i == 0 { 0 } else { 1 });
    }
}
