use lumos::osc::{
    extract_color_spec, has_terminator, osc_query, parse_color_response, query_bg_from_terminal,
    Action, DecodeError, Event, Query, QueryError, CHUNK_LEN, DEADLINE_MS, POLL_MS,
};
use lumos::{answer, detect_background, exit_code, DetectError};
use regex::Regex;

#[test]
fn test_parse_color_response() {
    // Test standard OSC 11 response
    let response = b"\x1b]11;rgb:0000/0000/0000\x07".to_vec();
    assert_eq!(parse_color_response(response), Ok("rgb:0000/0000/0000".to_string()));

    // Test with whitespace
    let response = b"\x1b] 11;rgb:ffff/8000/0000\x07".to_vec();
    assert_eq!(parse_color_response(response), Ok("rgb:ffff/8000/0000".to_string()));

    // Test with ST terminator
    let response = b"\x1b]11;rgb:1234/5678/9abc\x1b\\".to_vec();
    assert_eq!(parse_color_response(response), Ok("rgb:1234/5678/9abc".to_string()));

    // Test hex format
    let response = b"\x1b]11;#ff8000\x07".to_vec();
    assert_eq!(parse_color_response(response), Ok("#ff8000".to_string()));

    // Test invalid response
    let response = b"\x1b]10;rgb:0000/0000/0000\x07".to_vec(); // Wrong OSC number
    assert!(parse_color_response(response).is_err());
}

#[test]
fn test_parse_color_response_edge_cases() {
    // Test empty response
    let response = b"".to_vec();
    assert!(parse_color_response(response).is_err());

    // Test invalid UTF-8
    let response = vec![0xff, 0xfe, 0xfd];
    assert!(parse_color_response(response).is_err());

    // Test malformed response
    let response = b"garbage data".to_vec();
    assert!(parse_color_response(response).is_err());
}

#[test]
fn decode_errors_name_the_fault() {
    assert_eq!(parse_color_response(Vec::new()), Err(DecodeError::NoColor));
    assert_eq!(parse_color_response(vec![0xff, 0xfe, 0xfd]), Err(DecodeError::InvalidText));
    assert_eq!(
        parse_color_response(b"\x1b]11;#ffffff\xc3\x07".to_vec()),
        Err(DecodeError::InvalidText)
    );
    assert_eq!(
        parse_color_response(b"\x1b]10;rgb:0000/0000/0000\x07".to_vec()),
        Err(DecodeError::NoColor)
    );
    assert_eq!(parse_color_response(b"\x1b]111;#fff\x07".to_vec()), Err(DecodeError::NoColor));
    assert_eq!(parse_color_response(b"\x1b]11 ;#fff\x07".to_vec()), Err(DecodeError::NoColor));
    assert_eq!(parse_color_response(b"garbage data".to_vec()), Err(DecodeError::NoColor));
}

#[test]
fn both_terminators_give_the_same_colour() {
    for spec in ["rgb:1234/5678/9abc", "#ff8000", "rgb(1, 2, 3)", "", "what ever ]11;"] {
        let mut bel = b"\x1b]11;".to_vec();
        bel.extend_from_slice(spec.as_bytes());
        let mut st = bel.clone();
        bel.push(0x07);
        st.extend_from_slice(b"\x1b\\");
        let from_bel = parse_color_response(bel);
        assert_eq!(from_bel, Ok(spec.to_string()));
        assert_eq!(from_bel, parse_color_response(st));
    }
}

#[test]
fn the_colour_is_what_follows_the_first_head() {
    assert_eq!(extract_color_spec("]11;a"), Some("a".to_string()));
    assert_eq!(extract_color_spec("]11;"), Some(String::new()));
    assert_eq!(extract_color_spec("]11;\x07rest"), Some(String::new()));
    assert_eq!(extract_color_spec("x]10;a\x07]11;b\x07]11;c\x07"), Some("b".to_string()));
    assert_eq!(extract_color_spec("] \t\u{a0}11;caf\u{e9}\x1b\\"), Some("caf\u{e9}".to_string()));
    assert_eq!(extract_color_spec("]]11;x"), Some("x".to_string()));
    assert_eq!(extract_color_spec("] ]11;x"), Some("x".to_string()));
    assert_eq!(extract_color_spec("\u{e9}\u{e9}]11;\u{e9}x\x07"), Some("\u{e9}x".to_string()));
    assert_eq!(extract_color_spec("]11"), None);
    assert_eq!(extract_color_spec("]1 1;x"), None);
    assert_eq!(extract_color_spec("11;x"), None);
    assert_eq!(extract_color_spec("]"), None);
    assert_eq!(extract_color_spec("]  "), None);
    assert_eq!(extract_color_spec(""), None);
}

#[test]
fn extraction_agrees_with_the_pattern() {
    let pattern = Regex::new(r"]\s*11;([^\x07\x1b]*)").unwrap();
    let texts = [
        "\x1b]11;rgb:0000/0000/0000\x07",
        "\x1b] 11;rgb:ffff/8000/0000\x07",
        "\x1b]11;rgb:1234/5678/9abc\x1b\\",
        "\x1b]10;rgb:0000/0000/0000\x07",
        "]\u{2003}\u{85}\n11;x\x1by",
        "]\u{200b}11;x",
        "]]]11;]11;]\x07",
        "] 1]11;;\x07",
        "a]11",
        "]11;",
        "",
        "garbage data",
        "\u{3000}]\u{3000}11;\u{3000}\x07",
    ];
    for text in texts {
        let expected = pattern.captures(text).and_then(|c| c.get(1)).map(|m| m.as_str().to_string());
        assert_eq!(extract_color_spec(text), expected, "{text:?}");
    }
}

#[test]
fn the_question_is_osc_11() {
    assert_eq!(osc_query(), b"\x1b]11;?\x07".to_vec());
}

#[test]
fn an_end_is_found_anywhere() {
    assert!(has_terminator(&b"\x07".to_vec()));
    assert!(has_terminator(&b"abc\x07def".to_vec()));
    assert!(has_terminator(&b"\x1b\\".to_vec()));
    assert!(has_terminator(&b"\x1b]11;x\x1b\\".to_vec()));
    assert!(!has_terminator(&b"".to_vec()));
    assert!(!has_terminator(&b"\x1b".to_vec()));
    assert!(!has_terminator(&b"\\\x1b".to_vec()));
    assert!(!has_terminator(&b"\x1b]11;rgb:0000".to_vec()));
    assert!(!has_terminator(&b"\x1bx\\".to_vec()));
}

/// What a terminal does when it is acted on.
struct Script {
    /// The action that fails, if one does.
    fails: Option<Action>,
    /// The chunks that the terminal hands out, one for each read.
    chunks: Vec<Vec<u8>>,
    /// How many milliseconds each wait and each read takes.
    pace_ms: u64,
}

/// What a query did to the terminal.
struct Run {
    actions: Vec<Action>,
    reply: Result<String, QueryError>,
    restored: bool,
    elapsed_ms: u64,
}

/// Carries a query out against a scripted terminal.
fn run(script: Script) -> Run {
    let mut chunks = script.chunks.into_iter();
    let mut actions = Vec::new();
    let mut elapsed_ms = 0;
    let mut event = Event::Done;
    let mut query = Query::Start;
    loop {
        let (next, action) = query_bg_from_terminal(query, event);
        query = next;
        actions.push(action);
        assert!(actions.len() < 1000, "the query does not end");
        let failed = script.fails == Some(action)
            || matches!((script.fails, action), (Some(Action::Poll { .. }), Action::Poll { .. }));
        event = match action {
            Action::Finish => break,
            _ if failed => Event::Failed,
            Action::Poll { timeout_ms } => {
                assert!(timeout_ms <= POLL_MS);
                assert!(elapsed_ms + timeout_ms <= DEADLINE_MS);
                if chunks.len() > 0 {
                    elapsed_ms += script.pace_ms.min(timeout_ms);
                    Event::Readable
                } else {
                    elapsed_ms += timeout_ms;
                    Event::Idle { elapsed_ms }
                }
            }
            Action::Read { max_len } => {
                assert_eq!(max_len, CHUNK_LEN);
                elapsed_ms += script.pace_ms;
                match chunks.next() {
                    Some(bytes) => Event::Chunk { bytes, elapsed_ms },
                    None => Event::WouldBlock { elapsed_ms },
                }
            }
            _ => Event::Done,
        };
    }
    match query {
        Query::Closed { reply, restored } => Run { actions, reply, restored, elapsed_ms },
        other => panic!("finished in {other:?}"),
    }
}

/// How often `action` was taken.
fn count(actions: &[Action], action: Action) -> usize {
    actions.iter().filter(|a| **a == action).count()
}

#[test]
fn a_failed_write_gives_unknown() {
    let run = run(Script { fails: Some(Action::SendQuery), chunks: vec![], pace_ms: 1 });
    assert_eq!(
        run.actions,
        vec![
            Action::Open,
            Action::EnterRawMode,
            Action::EnterNonBlocking,
            Action::SendQuery,
            Action::RestoreLineDiscipline,
            Action::RestoreBlockingFlags,
            Action::Finish,
        ]
    );
    assert_eq!(run.reply, Err(QueryError::Write));
    assert!(run.restored);
    let class = detect_background(run.reply);
    assert_eq!(class, Err(DetectError::Query(QueryError::Write)));
    assert_eq!(answer(class), "unknown");
    assert_eq!(exit_code(class), 2);
}

#[test]
fn a_silent_terminal_gives_unknown_after_the_deadline() {
    let run = run(Script { fails: None, chunks: vec![], pace_ms: 1 });
    assert_eq!(run.elapsed_ms, DEADLINE_MS);
    assert_eq!(count(&run.actions, Action::Poll { timeout_ms: POLL_MS }), 8);
    assert_eq!(count(&run.actions, Action::RestoreLineDiscipline), 1);
    assert_eq!(count(&run.actions, Action::RestoreBlockingFlags), 1);
    assert_eq!(run.reply, Err(QueryError::Decode(DecodeError::NoColor)));
    let class = detect_background(run.reply);
    assert_eq!(answer(class), "unknown");
    assert_eq!(exit_code(class), 2);
}

#[test]
fn a_partial_answer_gives_unknown_after_the_deadline() {
    let run = run(Script { fails: None, chunks: vec![b"\x1b]1".to_vec()], pace_ms: 100 });
    assert_eq!(run.elapsed_ms, DEADLINE_MS);
    assert_eq!(run.reply, Err(QueryError::Decode(DecodeError::NoColor)));
    assert!(run.restored);
    assert_eq!(answer(detect_background(run.reply)), "unknown");
}

#[test]
fn a_black_background_is_dark() {
    let answer_bytes = b"\x1b]11;rgb:0000/0000/0000\x07".to_vec();
    let run = run(Script { fails: None, chunks: vec![answer_bytes], pace_ms: 3 });
    assert_eq!(
        run.actions,
        vec![
            Action::Open,
            Action::EnterRawMode,
            Action::EnterNonBlocking,
            Action::SendQuery,
            Action::Poll { timeout_ms: POLL_MS },
            Action::Read { max_len: CHUNK_LEN },
            Action::RestoreLineDiscipline,
            Action::RestoreBlockingFlags,
            Action::Finish,
        ]
    );
    assert_eq!(run.reply, Ok("rgb:0000/0000/0000".to_string()));
    let class = detect_background(run.reply);
    assert_eq!(class, Ok("dark"));
    assert_eq!(answer(class), "dark");
    assert_eq!(exit_code(class), 0);
}

#[test]
fn a_white_background_is_light() {
    let run = run(Script { fails: None, chunks: vec![b"\x1b]11;#ffffff\x07".to_vec()], pace_ms: 3 });
    assert_eq!(run.reply, Ok("#ffffff".to_string()));
    let class = detect_background(run.reply);
    assert_eq!(class, Ok("light"));
    assert_eq!(answer(class), "light");
    assert_eq!(exit_code(class), 0);
}

#[test]
fn an_end_in_two_pieces_is_found() {
    let chunks = vec![b"\x1b]11;rgb:ffff/".to_vec(), b"ffff/ffff\x1b".to_vec(), b"\\".to_vec()];
    let run = run(Script { fails: None, chunks, pace_ms: 10 });
    assert_eq!(count(&run.actions, Action::Read { max_len: CHUNK_LEN }), 3);
    assert_eq!(run.reply, Ok("rgb:ffff/ffff/ffff".to_string()));
    assert_eq!(detect_background(run.reply), Ok("light"));
}

#[test]
fn a_closed_terminal_ends_the_reading() {
    let chunks = vec![b"\x1b]11;#000000".to_vec(), vec![], b"\x07".to_vec()];
    let run = run(Script { fails: None, chunks, pace_ms: 10 });
    assert_eq!(count(&run.actions, Action::Read { max_len: CHUNK_LEN }), 2);
    assert_eq!(run.reply, Ok("#000000".to_string()));
    assert_eq!(detect_background(run.reply), Ok("dark"));
}

#[test]
fn every_failure_is_reported_and_undone() {
    let cases = [
        (Action::Open, QueryError::NoTerminal, 0, 0),
        (Action::EnterRawMode, QueryError::RawMode, 0, 0),
        (Action::EnterNonBlocking, QueryError::NonBlocking, 1, 0),
        (Action::SendQuery, QueryError::Write, 1, 1),
        (Action::Poll { timeout_ms: POLL_MS }, QueryError::Read, 1, 1),
        (Action::Read { max_len: CHUNK_LEN }, QueryError::Read, 1, 1),
    ];
    for (fails, error, lines, flags) in cases {
        let chunks = vec![b"\x1b]11;#ffffff\x07".to_vec()];
        let run = run(Script { fails: Some(fails), chunks, pace_ms: 1 });
        assert_eq!(run.reply, Err(error), "{fails:?}");
        assert!(run.restored);
        assert_eq!(count(&run.actions, Action::RestoreLineDiscipline), lines, "{fails:?}");
        assert_eq!(count(&run.actions, Action::RestoreBlockingFlags), flags, "{fails:?}");
        assert_eq!(run.actions.last(), Some(&Action::Finish));
        assert_eq!(exit_code(detect_background(run.reply)), 2);
    }
}

#[test]
fn a_failed_restoration_does_not_change_the_reply() {
    for fails in [Action::RestoreLineDiscipline, Action::RestoreBlockingFlags] {
        let chunks = vec![b"\x1b]11;#ffffff\x07".to_vec()];
        let run = run(Script { fails: Some(fails), chunks, pace_ms: 1 });
        assert_eq!(run.reply, Ok("#ffffff".to_string()));
        assert!(!run.restored);
        assert_eq!(count(&run.actions, Action::RestoreLineDiscipline), 1);
        assert_eq!(count(&run.actions, Action::RestoreBlockingFlags), 1);
    }
}

#[test]
fn a_reply_that_is_no_colour_gives_unknown() {
    let run = run(Script { fails: None, chunks: vec![b"\x1b]11;blue\x07".to_vec()], pace_ms: 1 });
    assert_eq!(run.reply, Ok("blue".to_string()));
    let class = detect_background(run.reply);
    assert_eq!(class, Err(DetectError::Parse(lumos::color::ParseError::UnrecognizedFormat)));
    assert_eq!(answer(class), "unknown");
    assert_eq!(exit_code(class), 2);
}

#[test]
fn a_closed_query_stays_closed() {
    let closed = Query::Closed { reply: Ok("#000000".to_string()), restored: true };
    let (next, action) = query_bg_from_terminal(closed, Event::Failed);
    assert_eq!(action, Action::Finish);
    assert_eq!(next, Query::Closed { reply: Ok("#000000".to_string()), restored: true });
}

#[test]
fn the_last_wait_is_cut_to_the_deadline() {
    let (next, action) =
        query_bg_from_terminal(Query::Polling { buf: vec![1] }, Event::Idle { elapsed_ms: 1900 });
    assert_eq!(action, Action::Poll { timeout_ms: 100 });
    assert_eq!(next, Query::Polling { buf: vec![1] });
    let (next, action) =
        query_bg_from_terminal(Query::Polling { buf: vec![1] }, Event::Idle { elapsed_ms: 2000 });
    assert_eq!(action, Action::RestoreLineDiscipline);
    assert_eq!(
        next,
        Query::RestoringLine {
            reply: Err(QueryError::Decode(DecodeError::NoColor)),
            nonblocking: true
        }
    );
}
