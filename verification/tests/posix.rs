use dylib::posix::{
    check_for_errors_in, close, failure_text, open, open_failure_text, symbol, Operation, Progress,
    Reply, Request, Session, LAZY,
};
use dylib::DynamicLibrary;

/// Runs a checked call to its end with the answers that the loader is to
/// give, and returns the requests that were made and the outcome.
fn run(
    start: (Session, Request),
    answers: Vec<Reply>,
) -> (Vec<Request>, Result<usize, String>) {
    let (mut session, mut request) = start;
    let mut asked = Vec::new();
    let mut answers = answers.into_iter();
    loop {
        asked.push(request);
        let reply = answers.next().expect("the call asks for more than the loader answers");
        assert!(session.accepts(&reply));
        match session.resume(reply) {
            Progress::Call(next, more) => {
                session = next;
                request = more;
            }
            Progress::Done(outcome) => {
                assert!(answers.next().is_none());
                return (asked, outcome);
            }
        }
    }
}

#[test]
fn test_errors_do_not_crash() {
    // The loader's answers to an open of a file that is no library.
    let start = open(Some(b"/dev/null")).unwrap();
    let (asked, outcome) = run(
        start,
        vec![
            Reply::Returned(0),
            Reply::LastError(Some(b"/dev/null: file too short".to_vec())),
        ],
    );
    assert_eq!(
        asked,
        vec![
            Request::Run(Operation::Open { filename: Some(b"/dev/null\0".to_vec()), flag: 1 }),
            Request::LastError,
        ]
    );
    match DynamicLibrary::open(outcome) {
        Err(_) => {}
        Ok(_) => panic!("Successfully opened the empty library."),
    }
}

#[test]
fn test_loading_cosine() {
    // The loader's answers to an open of the running program and to a
    // lookup of a symbol that is linked into it.
    let (asked, outcome) =
        run(open(None).unwrap(), vec![Reply::Returned(0x5555_0000), Reply::LastError(None)]);
    assert_eq!(
        asked,
        vec![Request::Run(Operation::Open { filename: None, flag: 1 }), Request::LastError]
    );
    let libm = match DynamicLibrary::open(outcome) {
        Err(error) => panic!("Could not load self as module: {}", error),
        Ok(libm) => libm,
    };
    let (handle, name) = match libm.symbol("cos") {
        Err(error) => panic!("Could not load function cos: {}", error),
        Ok(lookup) => lookup,
    };
    let (asked, outcome) = run(
        check_for_errors_in(symbol(handle, name)),
        vec![Reply::Returned(0x7f12_3456_7890), Reply::LastError(None)],
    );
    assert_eq!(
        asked,
        vec![
            Request::Run(Operation::Symbol { handle: 0x5555_0000, symbol: b"cos\0".to_vec() }),
            Request::LastError,
        ]
    );
    match outcome {
        Err(error) => panic!("Could not load function cos: {}", error),
        Ok(cosine) => assert_ne!(cosine, 0),
    }
}

#[test]
fn lazy_binding_is_flag_one() {
    assert_eq!(LAZY, 1);
}

#[test]
fn open_of_the_running_program_passes_no_name() {
    let (session, request) = open(None).unwrap();
    assert_eq!(session, Session::Running);
    assert_eq!(request, Request::Run(Operation::Open { filename: None, flag: LAZY }));
}

#[test]
fn open_terminates_the_file_name() {
    let (session, request) = open(Some(b"libdemo.so")).unwrap();
    assert_eq!(session, Session::Running);
    assert_eq!(
        request,
        Request::Run(Operation::Open { filename: Some(b"libdemo.so\0".to_vec()), flag: LAZY })
    );
    let (_, request) = open(Some(&[0xff, 0x2f])).unwrap();
    assert_eq!(
        request,
        Request::Run(Operation::Open { filename: Some(vec![0xff, 0x2f, 0]), flag: LAZY })
    );
    let (_, request) = open(Some(b"")).unwrap();
    assert_eq!(request, Request::Run(Operation::Open { filename: Some(vec![0]), flag: LAZY }));
}

#[test]
fn open_refuses_a_file_name_with_a_zero_byte() {
    assert_eq!(
        open(Some(b"lib\0demo.so")),
        Err(String::from("failed to open external `lib\0demo.so`"))
    );
    assert_eq!(
        open(Some(&[0x61, 0xff, 0x00])),
        Err(String::from("failed to open external `a\u{FFFD}\0`"))
    );
}

#[test]
fn open_failure_text_quotes_the_name() {
    assert_eq!(open_failure_text("x.so"), "failed to open external `x.so`");
    assert_eq!(open_failure_text(""), "failed to open external ``");
}

#[test]
fn a_null_that_is_no_error_is_a_success() {
    let (_, outcome) = run(
        check_for_errors_in(symbol(9, b"maybe_null\0".to_vec())),
        vec![Reply::Returned(0), Reply::LastError(None)],
    );
    assert_eq!(outcome, Ok(0));
}

#[test]
fn a_last_error_fails_the_call_whatever_it_returned() {
    let (asked, outcome) = run(
        check_for_errors_in(symbol(9, b"missing\0".to_vec())),
        vec![
            Reply::Returned(0xdead_beef),
            Reply::LastError(Some(b"./demo: undefined symbol: missing".to_vec())),
        ],
    );
    assert_eq!(
        asked,
        vec![
            Request::Run(Operation::Symbol { handle: 9, symbol: b"missing\0".to_vec() }),
            Request::LastError,
        ]
    );
    assert_eq!(outcome, Err(String::from("./demo: undefined symbol: missing")));
}

#[test]
fn a_failed_lookup_leaves_the_library_usable() {
    let library = DynamicLibrary::open(Ok(0x1000)).unwrap();
    let (handle, name) = library.symbol("no_such_symbol").unwrap();
    let (_, outcome) = run(
        check_for_errors_in(symbol(handle, name)),
        vec![
            Reply::Returned(0),
            Reply::LastError(Some(b"undefined symbol: no_such_symbol".to_vec())),
        ],
    );
    assert_eq!(outcome, Err(String::from("undefined symbol: no_such_symbol")));
    let (handle, name) = library.symbol("cos").unwrap();
    let (asked, outcome) = run(
        check_for_errors_in(symbol(handle, name)),
        vec![Reply::Returned(0x2000), Reply::LastError(None)],
    );
    assert_eq!(
        asked[0],
        Request::Run(Operation::Symbol { handle: 0x1000, symbol: b"cos\0".to_vec() })
    );
    assert_eq!(outcome, Ok(0x2000));
}

#[test]
fn close_is_checked_like_any_call() {
    let library = DynamicLibrary::open(Ok(0x1000)).unwrap();
    let (asked, outcome) = run(
        check_for_errors_in(close(library.close())),
        vec![Reply::Returned(0), Reply::LastError(None)],
    );
    assert_eq!(asked, vec![Request::Run(Operation::Close { handle: 0x1000 }), Request::LastError]);
    assert_eq!(outcome, Ok(0));
    let (_, outcome) = run(
        check_for_errors_in(close(0x1000)),
        vec![Reply::Returned(usize::MAX), Reply::LastError(Some(b"invalid handle".to_vec()))],
    );
    assert_eq!(outcome, Err(String::from("invalid handle")));
}

#[test]
fn an_empty_message_is_still_a_failure() {
    let (_, outcome) = run(
        check_for_errors_in(close(1)),
        vec![Reply::Returned(0), Reply::LastError(Some(Vec::new()))],
    );
    assert_eq!(outcome, Err(String::new()));
}

#[test]
fn a_message_in_utf8_is_decoded() {
    let (_, outcome) = run(
        check_for_errors_in(close(1)),
        vec![
            Reply::Returned(0),
            Reply::LastError(Some("fichier introuvable: bibliothèque ✗".as_bytes().to_vec())),
        ],
    );
    assert_eq!(outcome, Err(String::from("fichier introuvable: bibliothèque ✗")));
}

#[test]
fn a_message_that_is_not_utf8_is_reported() {
    let (_, outcome) = run(
        check_for_errors_in(close(1)),
        vec![Reply::Returned(0), Reply::LastError(Some(vec![0x61, 0xff, 0x62]))],
    );
    assert_eq!(
        outcome,
        Err(String::from(
            "failed to check for errors: invalid utf-8 sequence of 1 bytes from index 1"
        ))
    );
    let (_, outcome) = run(
        check_for_errors_in(close(1)),
        vec![Reply::Returned(0), Reply::LastError(Some(vec![0x61, 0xe2, 0x82]))],
    );
    assert_eq!(
        outcome,
        Err(String::from("failed to check for errors: incomplete utf-8 byte sequence from index 1"))
    );
}

#[test]
fn failure_text_keeps_a_message_and_reports_an_error() {
    assert_eq!(failure_text(Ok(String::from("file too short"))), "file too short");
    assert_eq!(
        failure_text(Err(String::from("bad byte"))),
        "failed to check for errors: bad byte"
    );
}

#[test]
fn a_session_accepts_only_the_answer_to_its_request() {
    assert!(Session::Running.accepts(&Reply::Returned(0)));
    assert!(!Session::Running.accepts(&Reply::LastError(None)));
    let checking = Session::Checking { value: 3 };
    assert!(checking.accepts(&Reply::LastError(None)));
    assert!(checking.accepts(&Reply::LastError(Some(Vec::new()))));
    assert!(!checking.accepts(&Reply::Returned(3)));
}

#[test]
fn each_step_of_a_checked_call() {
    let (session, request) = check_for_errors_in(close(5));
    assert_eq!(session, Session::Running);
    assert_eq!(request, Request::Run(Operation::Close { handle: 5 }));
    let next = session.resume(Reply::Returned(17));
    assert_eq!(next, Progress::Call(Session::Checking { value: 17 }, Request::LastError));
    let last = Session::Checking { value: 17 }.resume(Reply::LastError(None));
    assert_eq!(last, Progress::Done(Ok(17)));
}
