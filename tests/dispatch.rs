use remote_server::handlers::Handlers;
use remote_server::protocol::{
    forward_updates, Envelope, Payload, RequestKind, StatResponse, UpdateWorktree,
    LINE_ENDING_UNIX, LINE_ENDING_WINDOWS,
};
use remote_server::response::Response;
use remote_server::server::{collect_paths, line_ending_of, FsCall, FsOutcome, LineEnding, Server};

fn request(id: u32, payload: Payload) -> Envelope {
    Envelope { id, original_sender_id: None, payload: Some(payload), responding_to: None }
}

fn error_text(e: &Envelope) -> String {
    match &e.payload {
        Some(Payload::Error { code, tags, message }) => {
            assert_eq!(*code, 0);
            assert!(tags.is_empty());
            message.clone()
        }
        _ => panic!("not an error frame"),
    }
}

/// Checks that every frame answers request `id` and that the last one is
/// its completion frame, with no other completion frame before it.
fn ends_with_marker(frames: &[Envelope], id: u32) {
    assert!(frames.iter().all(|f| f.responding_to == Some(id)));
    let last = frames.last().expect("a request is always concluded");
    assert_eq!(last.id, 0);
    assert_eq!(last.original_sender_id, None);
    assert!(last.payload.is_none());
    assert!(frames[..frames.len() - 1].iter().all(|f| f.payload.is_some()));
}

/// Runs one request through the server, with `outcome` standing for the
/// result of the filesystem work it names.
fn dispatch(server: &mut Server, message: &Envelope, outcome: FsOutcome) -> Vec<Envelope> {
    let call = server.call_for(message);
    assert!(call.fits(&outcome));
    server.handle_message(message, outcome)
}

#[test]
fn ping_is_acknowledged() {
    let mut server = Server::new();
    let frames = dispatch(&mut server, &request(7, Payload::Ping), FsOutcome::Nothing);
    assert_eq!(frames.len(), 2);
    ends_with_marker(&frames, 7);
    assert_eq!(frames[0].responding_to, Some(7));
    assert!(matches!(frames[0].payload, Some(Payload::Ack)));
}

#[test]
fn missing_file_read_fails_with_io_error() {
    let mut server = Server::new();
    let message = request(8, Payload::ReadFile { path: "/missing".to_string() });
    match server.call_for(&message) {
        FsCall::Load { path } => assert_eq!(path, "/missing"),
        _ => panic!("expected a load"),
    }
    let frames = dispatch(
        &mut server,
        &message,
        FsOutcome::Failed("No such file or directory (os error 2)".to_string()),
    );
    assert_eq!(frames.len(), 2);
    ends_with_marker(&frames, 8);
    assert_eq!(frames[0].responding_to, Some(8));
    assert!(error_text(&frames[0]).contains("No such file"));
}

#[test]
fn read_file_returns_content() {
    let mut server = Server::new();
    let message = request(3, Payload::ReadFile { path: "/a.txt".to_string() });
    let frames = dispatch(&mut server, &message, FsOutcome::Content("one\ntwo\n".to_string()));
    assert_eq!(frames.len(), 2);
    ends_with_marker(&frames, 3);
    assert_eq!(frames[0].responding_to, Some(3));
    match &frames[0].payload {
        Some(Payload::ReadFileResponse { content }) => assert_eq!(content, "one\ntwo\n"),
        _ => panic!("expected file content"),
    }
}

#[test]
fn non_request_payload_is_unhandled() {
    let mut server = Server::new();
    let frames = dispatch(&mut server, &request(11, Payload::Ack), FsOutcome::Nothing);
    assert_eq!(frames.len(), 2);
    ends_with_marker(&frames, 11);
    assert_eq!(frames[0].responding_to, Some(11));
    assert_eq!(error_text(&frames[0]), "unhandled request type");
}

#[test]
fn empty_payload_is_unhandled() {
    let mut server = Server::new();
    let message =
        Envelope { id: 12, original_sender_id: None, payload: None, responding_to: None };
    let frames = dispatch(&mut server, &message, FsOutcome::Nothing);
    assert_eq!(frames.len(), 2);
    ends_with_marker(&frames, 12);
    assert_eq!(frames[0].responding_to, Some(12));
    assert_eq!(error_text(&frames[0]), "unhandled request type");
}

#[test]
fn unregistered_kind_is_unhandled() {
    let handlers = Handlers::new().add(RequestKind::Ping);
    let mut server = Server::with_handlers(handlers);
    let message = request(13, Payload::Stat { path: "/tmp".to_string() });
    assert!(matches!(server.call_for(&message), FsCall::Nothing));
    let frames = dispatch(&mut server, &message, FsOutcome::Nothing);
    assert_eq!(frames.len(), 2);
    ends_with_marker(&frames, 13);
    assert_eq!(frames[0].responding_to, Some(13));
    assert_eq!(error_text(&frames[0]), "unhandled request type");
    let frames = dispatch(&mut server, &request(14, Payload::Ping), FsOutcome::Nothing);
    assert!(matches!(frames[0].payload, Some(Payload::Ack)));
}

#[test]
fn stat_of_missing_path_sends_completion_only() {
    let mut server = Server::new();
    let message = request(20, Payload::Stat { path: "/nope".to_string() });
    let frames = dispatch(&mut server, &message, FsOutcome::Metadata(None));
    assert_eq!(frames.len(), 1);
    ends_with_marker(&frames, 20);
    assert_eq!(frames[0].responding_to, Some(20));
    assert!(frames[0].payload.is_none());
}

#[test]
fn stat_of_existing_path_sends_metadata() {
    let mut server = Server::new();
    let message = request(21, Payload::Stat { path: "/etc".to_string() });
    let meta = StatResponse { is_dir: true, is_symlink: false, mtime: 1_700_000_000_123, inode: 42 };
    let frames = dispatch(&mut server, &message, FsOutcome::Metadata(Some(meta)));
    assert_eq!(frames.len(), 2);
    ends_with_marker(&frames, 21);
    assert_eq!(frames[0].responding_to, Some(21));
    match &frames[0].payload {
        Some(Payload::StatResponse(m)) => {
            assert!(m.is_dir);
            assert!(!m.is_symlink);
            assert_eq!(m.mtime, 1_700_000_000_123);
            assert_eq!(m.inode, 42);
        }
        _ => panic!("expected metadata"),
    }
}

#[test]
fn write_file_names_save_and_completes_without_payload() {
    let mut server = Server::new();
    let message = request(
        30,
        Payload::WriteFile {
            path: "/w.txt".to_string(),
            content: "a\nb".to_string(),
            line_ending: LINE_ENDING_UNIX,
        },
    );
    match server.call_for(&message) {
        FsCall::Save { path, content, line_ending } => {
            assert_eq!(path, "/w.txt");
            assert_eq!(content, "a\nb");
            assert!(line_ending == LineEnding::Unix);
        }
        _ => panic!("expected a save"),
    }
    let frames = dispatch(&mut server, &message, FsOutcome::Saved);
    assert_eq!(frames.len(), 1);
    ends_with_marker(&frames, 30);
    assert_eq!(frames[0].responding_to, Some(30));
    assert!(frames[0].payload.is_none());
}

#[test]
fn write_file_failure_is_reported() {
    let mut server = Server::new();
    let message = request(
        31,
        Payload::WriteFile { path: "/ro".to_string(), content: String::new(), line_ending: 1 },
    );
    let frames =
        dispatch(&mut server, &message, FsOutcome::Failed("Permission denied".to_string()));
    assert_eq!(frames.len(), 2);
    ends_with_marker(&frames, 31);
    assert_eq!(frames[0].responding_to, Some(31));
    assert_eq!(error_text(&frames[0]), "Permission denied");
}

#[test]
fn line_ending_values() {
    assert!(line_ending_of(LINE_ENDING_UNIX) == LineEnding::Unix);
    assert!(line_ending_of(LINE_ENDING_WINDOWS) == LineEnding::Windows);
    assert!(line_ending_of(7) == LineEnding::Windows);
    assert!(line_ending_of(-1) == LineEnding::Windows);
}

#[test]
fn read_link_and_canonicalize_send_paths() {
    let mut server = Server::new();
    let link = request(40, Payload::ReadLink { path: "/l".to_string() });
    assert!(matches!(server.call_for(&link), FsCall::ReadLink { .. }));
    let frames = dispatch(&mut server, &link, FsOutcome::Path("/target".to_string()));
    assert_eq!(frames.len(), 2);
    ends_with_marker(&frames, 40);
    match &frames[0].payload {
        Some(Payload::PathResponse { path }) => assert_eq!(path, "/target"),
        _ => panic!("expected a path"),
    }
    let canon = request(41, Payload::Canonicalize { path: "./x/../y".to_string() });
    assert!(matches!(server.call_for(&canon), FsCall::Canonicalize { .. }));
    let frames = dispatch(&mut server, &canon, FsOutcome::Path("/home/y".to_string()));
    assert_eq!(frames.len(), 2);
    ends_with_marker(&frames, 41);
    match &frames[0].payload {
        Some(Payload::PathResponse { path }) => assert_eq!(path, "/home/y"),
        _ => panic!("expected a path"),
    }
}

#[test]
fn read_dir_lists_all_entries() {
    let mut server = Server::new();
    let message = request(50, Payload::ReadDir { path: "/d".to_string() });
    let items = vec![Ok("/d/a".to_string()), Ok("/d/b".to_string())];
    let frames = dispatch(&mut server, &message, FsOutcome::Entries(items));
    assert_eq!(frames.len(), 2);
    ends_with_marker(&frames, 50);
    match &frames[0].payload {
        Some(Payload::ReadDirResponse { paths }) => {
            assert_eq!(paths, &vec!["/d/a".to_string(), "/d/b".to_string()])
        }
        _ => panic!("expected a listing"),
    }
}

#[test]
fn read_dir_first_error_aborts() {
    let mut server = Server::new();
    let message = request(51, Payload::ReadDir { path: "/d".to_string() });
    let items = vec![
        Ok("/d/a".to_string()),
        Err("first failure".to_string()),
        Err("second failure".to_string()),
    ];
    let frames = dispatch(&mut server, &message, FsOutcome::Entries(items));
    assert_eq!(frames.len(), 2);
    ends_with_marker(&frames, 51);
    assert_eq!(frames[0].responding_to, Some(51));
    assert_eq!(error_text(&frames[0]), "first failure");
}

#[test]
fn read_dir_empty_listing() {
    let mut server = Server::new();
    let message = request(52, Payload::ReadDir { path: "/empty".to_string() });
    let frames = dispatch(&mut server, &message, FsOutcome::Entries(Vec::new()));
    assert_eq!(frames.len(), 2);
    ends_with_marker(&frames, 52);
    match &frames[0].payload {
        Some(Payload::ReadDirResponse { paths }) => assert!(paths.is_empty()),
        _ => panic!("expected a listing"),
    }
}

#[test]
fn collect_paths_cases() {
    assert_eq!(
        collect_paths(&vec![Ok("x".to_string()), Ok("y".to_string())]),
        Ok(vec!["x".to_string(), "y".to_string()])
    );
    assert_eq!(
        collect_paths(&vec![Ok("x".to_string()), Err("bad".to_string())]),
        Err("bad".to_string())
    );
}

#[test]
fn add_worktrees_get_distinct_ids() {
    let mut server = Server::new();
    let mut ids = Vec::new();
    for (i, p) in ["/p0", "/p1", "/p2", "/p3"].iter().enumerate() {
        let message = request(60 + i as u32, Payload::AddWorktree { path: p.to_string() });
        match server.call_for(&message) {
            FsCall::OpenWorktree { path } => assert_eq!(path, *p),
            _ => panic!("expected a worktree"),
        }
        let frames = dispatch(&mut server, &message, FsOutcome::Opened);
        assert_eq!(frames.len(), 2);
        ends_with_marker(&frames, 60 + i as u32);
        assert_eq!(frames[0].responding_to, Some(60 + i as u32));
        match &frames[0].payload {
            Some(Payload::AddWorktreeResponse { worktree_id }) => ids.push(*worktree_id),
            _ => panic!("expected a worktree id"),
        }
    }
    assert_eq!(ids, vec![1, 2, 3, 4]);
    assert_eq!(server.worktree_ids(), vec![1, 2, 3, 4]);
}

#[test]
fn failed_worktree_is_not_added() {
    let mut server = Server::new();
    let message = request(70, Payload::AddWorktree { path: "/gone".to_string() });
    let frames = dispatch(&mut server, &message, FsOutcome::Failed("not found".to_string()));
    assert_eq!(frames.len(), 2);
    ends_with_marker(&frames, 70);
    assert_eq!(error_text(&frames[0]), "not found");
    assert!(server.worktree_ids().is_empty());
}

#[test]
fn updates_are_forwarded_in_order() {
    let updates: Vec<UpdateWorktree> = (0..5u64)
        .map(|n| UpdateWorktree {
            worktree_id: 1,
            updated_paths: vec![format!("f{}", n)],
            removed_entry_ids: vec![n],
        })
        .collect();
    let frames = forward_updates(updates);
    assert_eq!(frames.len(), 5);
    for (n, f) in frames.iter().enumerate() {
        assert_eq!(f.responding_to, None);
        match &f.payload {
            Some(Payload::UpdateWorktree(u)) => {
                assert_eq!(u.worktree_id, 1);
                assert_eq!(u.updated_paths, vec![format!("f{}", n)]);
                assert_eq!(u.removed_entry_ids, vec![n as u64]);
            }
            _ => panic!("expected an update"),
        }
    }
}

#[test]
fn response_without_send_concludes_with_marker() {
    let response = Response::new(90);
    assert_eq!(response.id(), 90);
    let frames = response.finish();
    assert_eq!(frames.len(), 1);
    ends_with_marker(&frames, 90);
    assert_eq!(frames[0].responding_to, Some(90));
    assert!(frames[0].payload.is_none());
}

#[test]
fn response_sends_each_payload() {
    let mut response = Response::new(91);
    response.send(Payload::Ack);
    response.send_error("late".to_string());
    let frames = response.finish();
    assert_eq!(frames.len(), 3);
    ends_with_marker(&frames, 91);
    assert!(matches!(frames[0].payload, Some(Payload::Ack)));
    assert_eq!(error_text(&frames[1]), "late");
    assert_eq!(frames[1].responding_to, Some(91));
}

#[test]
fn registry_lookup() {
    let handlers = Handlers::new().add(RequestKind::ReadFile).add(RequestKind::ReadFile);
    assert!(handlers.get(RequestKind::ReadFile));
    assert!(!handlers.get(RequestKind::Ping));
    let all = Server::build_handlers();
    assert!(all.get(RequestKind::AddWorktree));
    assert!(all.get(RequestKind::Ping));
    assert!(Server::new().handles(RequestKind::Stat));
}

#[test]
fn payload_kinds() {
    assert!(Payload::Ping.kind() == Some(RequestKind::Ping));
    assert!(Payload::ReadDir { path: String::new() }.kind() == Some(RequestKind::ReadDir));
    assert!(Payload::Ack.kind().is_none());
    assert!(Payload::PathResponse { path: String::new() }.kind().is_none());
}

#[test]
fn outcome_shape_checks() {
    let load = FsCall::Load { path: "/x".to_string() };
    assert!(load.fits(&FsOutcome::Content(String::new())));
    assert!(load.fits(&FsOutcome::Failed(String::new())));
    assert!(!load.fits(&FsOutcome::Saved));
    assert!(FsCall::Nothing.fits(&FsOutcome::Nothing));
    assert!(!FsCall::Nothing.fits(&FsOutcome::Failed(String::new())));
}

#[test]
fn stat_of_missing_path_is_deterministic() {
    let mut server = Server::new();
    let first = dispatch(
        &mut server,
        &request(22, Payload::Stat { path: "/nope".to_string() }),
        FsOutcome::Metadata(None),
    );
    let second = dispatch(
        &mut server,
        &request(23, Payload::Stat { path: "/nope".to_string() }),
        FsOutcome::Metadata(None),
    );
    assert_eq!(first.len(), 1);
    assert_eq!(second.len(), 1);
    ends_with_marker(&first, 22);
    ends_with_marker(&second, 23);
}
