use biu_uploader::interactive::BitrateTooLow;
use biu_uploader::outcome::{Abort, Outcome, SubmitError};
use biu_uploader::signature::checksum;
use biu_uploader::submission::{advance, start, Action, Event, State};
use biu_uploader::types::{
    DupeCheckError, DupeCheckResponseBody, DupeItem, MusicCategory, MusicQualityLevel, MusicType,
    SubmittedMusicMetadata,
};
use biu_uploader::upload::{check_dupe_request, upload_form};

fn response(
    success: bool,
    token: Option<&str>,
    error_code: Option<DupeCheckError>,
    result: Option<Vec<DupeItem>>,
) -> DupeCheckResponseBody {
    DupeCheckResponseBody { success, token: token.map(String::from), error_code, result }
}

fn candidate(sid: &str) -> DupeItem {
    DupeItem {
        sid: String::from(sid),
        title: String::from("A"),
        singer: String::from("B"),
        album: String::from("C"),
        level: MusicQualityLevel::HighQualityMp3,
        score: String::from("0.8"),
    }
}

fn failed(error: SubmitError) -> (State, Action) {
    (State::Finished(Outcome::Failed(error)), Action::Finish)
}

fn is_network_call(action: &Action) -> bool {
    matches!(action, Action::CheckDupe { .. } | Action::Upload { .. })
}

/// Feeds the events to the machine from its start and returns the last
/// state with every action that was asked for, the first probe included.
fn drive(events: Vec<Event>) -> (State, Vec<Action>) {
    let (mut state, first) = start();
    let mut asked = vec![first];
    for event in events {
        let (next, action) = advance(state, event);
        state = next;
        asked.push(action);
    }
    (state, asked)
}

#[test]
fn submission_starts_with_the_probe() {
    assert_eq!(start(), (State::Probing, Action::Probe));
}

#[test]
fn low_bit_rate_ends_before_any_network_call() {
    let (state, asked) = drive(vec![
        Event::Probed { bit_rate: 127999 },
        Event::Collected,
        Event::Checked(response(true, Some("tok"), None, None)),
        Event::UploadFinished { status: 200, body: String::new() },
    ]);
    assert_eq!(
        state,
        State::Finished(Outcome::Failed(SubmitError::BitrateTooLow(BitrateTooLow {
            bit_rate: 127999
        })))
    );
    assert_eq!(
        asked,
        vec![Action::Probe, Action::Finish, Action::Finish, Action::Finish, Action::Finish]
    );
    assert!(!asked.iter().any(is_network_call));
}

#[test]
fn bit_rate_at_minimum_goes_on_to_prompts() {
    assert_eq!(
        advance(State::Probing, Event::Probed { bit_rate: 128000 }),
        (State::Collecting, Action::Collect)
    );
}

#[test]
fn first_check_is_not_forced() {
    assert_eq!(
        advance(State::Collecting, Event::Collected),
        (State::Checking, Action::CheckDupe { forced: false })
    );
}

#[test]
fn success_with_token_goes_to_upload() {
    assert_eq!(
        advance(State::Checking, Event::Checked(response(true, Some("tok123"), None, None))),
        (State::Uploading, Action::Upload { token: String::from("tok123") })
    );
}

#[test]
fn success_without_token_goes_to_forced_check() {
    assert_eq!(
        advance(State::Checking, Event::Checked(response(true, None, None, None))),
        (State::ForceChecking, Action::CheckDupe { forced: true })
    );
}

#[test]
fn each_terminal_reason_aborts_without_upload() {
    let terminal = [
        DupeCheckError::BadSignature,
        DupeCheckError::QueueIsFull,
        DupeCheckError::BadParameters,
        DupeCheckError::Md5Dupe,
        DupeCheckError::DatabaseError,
        DupeCheckError::UploadDisabled,
        DupeCheckError::CategoryError,
    ];
    for reason in terminal {
        let (state, asked) = drive(vec![
            Event::Probed { bit_rate: 320000 },
            Event::Collected,
            Event::Checked(response(false, Some("tok"), Some(reason), None)),
            Event::Confirmed(true),
            Event::Checked(response(true, Some("tok"), None, None)),
        ]);
        assert_eq!(state, State::Finished(Outcome::Aborted(Abort::Rejected(reason))));
        assert_eq!(
            asked,
            vec![
                Action::Probe,
                Action::Collect,
                Action::CheckDupe { forced: false },
                Action::Finish,
                Action::Finish,
                Action::Finish,
            ]
        );
    }
}

#[test]
fn possible_duplicate_asks_for_confirmation() {
    let candidates = vec![candidate("1"), candidate("2")];
    assert_eq!(
        advance(
            State::Checking,
            Event::Checked(response(
                false,
                None,
                Some(DupeCheckError::PotentialDupe),
                Some(candidates.clone())
            ))
        ),
        (State::Confirming, Action::Confirm { candidates })
    );
}

#[test]
fn declined_confirmation_makes_no_further_call() {
    let (state, asked) = drive(vec![
        Event::Probed { bit_rate: 320000 },
        Event::Collected,
        Event::Checked(response(
            false,
            None,
            Some(DupeCheckError::PotentialDupe),
            Some(vec![candidate("1")]),
        )),
        Event::Confirmed(false),
        Event::Checked(response(true, Some("tok"), None, None)),
    ]);
    assert_eq!(state, State::Finished(Outcome::Aborted(Abort::Declined)));
    assert_eq!(
        asked,
        vec![
            Action::Probe,
            Action::Collect,
            Action::CheckDupe { forced: false },
            Action::Confirm { candidates: vec![candidate("1")] },
            Action::Finish,
            Action::Finish,
        ]
    );
}

#[test]
fn accepted_confirmation_forces_once_then_uploads_with_new_token() {
    let (state, asked) = drive(vec![
        Event::Probed { bit_rate: 320000 },
        Event::Collected,
        Event::Checked(response(
            false,
            Some("stale"),
            Some(DupeCheckError::PotentialDupe),
            Some(vec![candidate("1")]),
        )),
        Event::Confirmed(true),
        Event::Checked(response(true, Some("fresh"), None, None)),
        Event::UploadFinished { status: 200, body: String::from("{}") },
    ]);
    assert_eq!(state, State::Finished(Outcome::Uploaded));
    assert_eq!(
        asked,
        vec![
            Action::Probe,
            Action::Collect,
            Action::CheckDupe { forced: false },
            Action::Confirm { candidates: vec![candidate("1")] },
            Action::CheckDupe { forced: true },
            Action::Upload { token: String::from("fresh") },
            Action::Finish,
        ]
    );
    let forced = asked.iter().filter(|a| **a == Action::CheckDupe { forced: true }).count();
    assert_eq!(forced, 1);
}

#[test]
fn forced_check_without_token_is_fatal() {
    assert_eq!(
        advance(State::ForceChecking, Event::Checked(response(true, None, None, None))),
        failed(SubmitError::MissingToken)
    );
    assert_eq!(
        advance(
            State::ForceChecking,
            Event::Checked(response(false, None, Some(DupeCheckError::Md5Dupe), None))
        ),
        failed(SubmitError::MissingToken)
    );
}

#[test]
fn forced_check_with_token_goes_to_upload() {
    assert_eq!(
        advance(State::ForceChecking, Event::Checked(response(true, Some("t"), None, None))),
        (State::Uploading, Action::Upload { token: String::from("t") })
    );
}

#[test]
fn malformed_answers_are_fatal() {
    // Failure without a reason.
    assert_eq!(
        advance(State::Checking, Event::Checked(response(false, None, None, None))),
        failed(SubmitError::MalformedResponse)
    );
    // Success with a reason.
    assert_eq!(
        advance(
            State::Checking,
            Event::Checked(response(true, Some("t"), Some(DupeCheckError::Md5Dupe), None))
        ),
        failed(SubmitError::MalformedResponse)
    );
    // A possible duplicate without candidates.
    assert_eq!(
        advance(
            State::Checking,
            Event::Checked(response(false, None, Some(DupeCheckError::PotentialDupe), None))
        ),
        failed(SubmitError::MalformedResponse)
    );
}

#[test]
fn malformed_forced_answers_are_fatal() {
    assert_eq!(
        advance(State::ForceChecking, Event::Checked(response(false, Some("t"), None, None))),
        failed(SubmitError::MalformedResponse)
    );
    assert_eq!(
        advance(
            State::ForceChecking,
            Event::Checked(response(true, Some("t"), Some(DupeCheckError::BadSignature), None))
        ),
        failed(SubmitError::MalformedResponse)
    );
}

#[test]
fn forced_answer_with_token_uploads_even_when_it_reports_failure() {
    assert_eq!(
        advance(
            State::ForceChecking,
            Event::Checked(response(false, Some("t"), Some(DupeCheckError::PotentialDupe), None))
        ),
        (State::Uploading, Action::Upload { token: String::from("t") })
    );
}

#[test]
fn possible_duplicate_with_no_candidates_listed_still_asks() {
    assert_eq!(
        advance(
            State::Checking,
            Event::Checked(response(
                false,
                None,
                Some(DupeCheckError::PotentialDupe),
                Some(Vec::new())
            ))
        ),
        (State::Confirming, Action::Confirm { candidates: Vec::new() })
    );
}

#[test]
fn upload_status_200_finishes() {
    assert_eq!(
        advance(State::Uploading, Event::UploadFinished { status: 200, body: String::new() }),
        (State::Finished(Outcome::Uploaded), Action::Finish)
    );
}

#[test]
fn upload_failure_reports_body_exactly() {
    let (state, action) = advance(
        State::Uploading,
        Event::UploadFinished { status: 403, body: String::from("quota exceeded") },
    );
    assert_eq!(action, Action::Finish);
    assert_eq!(
        state,
        State::Finished(Outcome::Failed(SubmitError::Upload(String::from("quota exceeded"))))
    );
    match state {
        State::Finished(outcome) => {
            assert_eq!(outcome.to_string(), "quota exceeded");
            assert_eq!(outcome.exit_code(), 1);
        }
        _ => unreachable!(),
    }
}

#[test]
fn failure_of_a_request_is_a_transport_error() {
    for state in [State::Checking, State::ForceChecking, State::Uploading] {
        assert_eq!(
            advance(state, Event::Failed(String::from("connection reset"))),
            failed(SubmitError::Transport(String::from("connection reset")))
        );
    }
}

#[test]
fn failure_of_a_collaborator_is_reported_as_such() {
    for state in [State::Probing, State::Collecting, State::Confirming] {
        assert_eq!(
            advance(state, Event::Failed(String::from("no such file"))),
            failed(SubmitError::Collaborator(String::from("no such file")))
        );
    }
}

#[test]
fn event_out_of_turn_is_fatal() {
    assert_eq!(
        advance(State::Probing, Event::Collected),
        failed(SubmitError::UnexpectedEvent)
    );
    assert_eq!(
        advance(State::Collecting, Event::Confirmed(true)),
        failed(SubmitError::UnexpectedEvent)
    );
    assert_eq!(
        advance(State::Checking, Event::Probed { bit_rate: 320000 }),
        failed(SubmitError::UnexpectedEvent)
    );
    assert_eq!(
        advance(State::Confirming, Event::Checked(response(true, Some("t"), None, None))),
        failed(SubmitError::UnexpectedEvent)
    );
    assert_eq!(
        advance(State::ForceChecking, Event::Confirmed(true)),
        failed(SubmitError::UnexpectedEvent)
    );
    assert_eq!(
        advance(State::Uploading, Event::Collected),
        failed(SubmitError::UnexpectedEvent)
    );
}

#[test]
fn finished_submission_stays_finished() {
    let done = State::Finished(Outcome::Uploaded);
    assert_eq!(
        advance(done.clone(), Event::Failed(String::from("late"))),
        (done.clone(), Action::Finish)
    );
    assert_eq!(
        advance(done.clone(), Event::Checked(response(true, Some("t"), None, None))),
        (done, Action::Finish)
    );
}

#[test]
fn exit_codes() {
    assert_eq!(Outcome::Uploaded.exit_code(), 0);
    assert_eq!(Outcome::Aborted(Abort::Declined).exit_code(), 0);
    assert_eq!(Outcome::Aborted(Abort::Rejected(DupeCheckError::Md5Dupe)).exit_code(), 1);
    assert_eq!(Outcome::Failed(SubmitError::MissingToken).exit_code(), 1);
    assert_eq!(
        Outcome::Failed(SubmitError::BitrateTooLow(BitrateTooLow { bit_rate: 1 })).exit_code(),
        1
    );
}

#[test]
fn outcome_reports() {
    assert_eq!(Outcome::Uploaded.to_string(), "上传成功。");
    assert_eq!(Outcome::Aborted(Abort::Declined).to_string(), "上传被取消。");
    assert_eq!(
        Outcome::Aborted(Abort::Rejected(DupeCheckError::Md5Dupe)).to_string(),
        "存在 MD5 重复的文件。"
    );
    assert_eq!(
        Outcome::Failed(SubmitError::BitrateTooLow(BitrateTooLow { bit_rate: 96000 }))
            .to_string(),
        "Bitrate 96000 is too low - 128kbps (128000) is required"
    );
    assert_eq!(
        Outcome::Failed(SubmitError::Transport(String::from("timed out"))).to_string(),
        "timed out"
    );
    assert_eq!(
        Outcome::Failed(SubmitError::Collaborator(String::from("ffprobe: not found")))
            .to_string(),
        "ffprobe: not found"
    );
    assert_eq!(
        Outcome::Failed(SubmitError::MissingToken).to_string(),
        "the duplicate check gave no upload token"
    );
    assert_eq!(
        Outcome::Failed(SubmitError::MalformedResponse).to_string(),
        "the duplicate check gave a malformed answer"
    );
    assert_eq!(
        Outcome::Failed(SubmitError::UnexpectedEvent).to_string(),
        "an event arrived out of turn"
    );
}

#[test]
fn end_to_end_upload_of_empty_file() {
    let uid = 42;
    let api_key = "secret";
    let bytes: Vec<u8> = Vec::new();
    let sum = checksum(&bytes);
    assert_eq!(sum, "d41d8cd98f00b204e9800998ecf8427e");
    let meta = SubmittedMusicMetadata {
        album: String::from("C"),
        artist: String::from("B"),
        title: String::from("A"),
    };

    let (state, action) = start();
    assert_eq!(action, Action::Probe);
    let (state, action) = advance(state, Event::Probed { bit_rate: 320000 });
    assert_eq!(action, Action::Collect);
    let (state, action) = advance(state, Event::Collected);
    assert_eq!(action, Action::CheckDupe { forced: false });

    let request = check_dupe_request(
        uid,
        api_key,
        &meta,
        MusicCategory::Anime,
        MusicType::Original,
        &sum,
        false,
    );
    let sign = format!("{:x}", md5::compute("42d41d8cd98f00b204e9800998ecf8427eABCsecret"));
    let expected: Vec<(String, String)> = [
        ("uid", "42"),
        ("filemd5", "d41d8cd98f00b204e9800998ecf8427e"),
        ("title", "A"),
        ("singer", "B"),
        ("album", "C"),
        ("remark", ""),
        ("type1", "1"),
        ("type2", "1"),
        ("sign", sign.as_str()),
        ("force", "0"),
    ]
    .iter()
    .map(|(name, value)| (String::from(*name), String::from(*value)))
    .collect();
    assert_eq!(request.form(), expected);

    let (state, action) =
        advance(state, Event::Checked(response(true, Some("tok123"), None, None)));
    assert_eq!(action, Action::Upload { token: String::from("tok123") });
    let token = match action {
        Action::Upload { token } => token,
        _ => unreachable!(),
    };
    let form = upload_form(&token, &sum, bytes.clone());
    assert_eq!(form.token, "tok123");
    assert_eq!(form.key, sum);
    assert_eq!(form.x_md5, sum);
    assert_eq!(form.file, bytes);

    let (state, action) =
        advance(state, Event::UploadFinished { status: 200, body: String::from("{}") });
    assert_eq!(action, Action::Finish);
    assert_eq!(state, State::Finished(Outcome::Uploaded));
    assert_eq!(Outcome::Uploaded.exit_code(), 0);
}

#[test]
fn network_calls_come_in_order_and_once() {
    let (_, asked) = drive(vec![
        Event::Probed { bit_rate: 128000 },
        Event::Collected,
        Event::Checked(response(true, None, None, None)),
        Event::Checked(response(true, Some("t"), None, None)),
        Event::UploadFinished { status: 500, body: String::from("busy") },
        Event::Checked(response(true, Some("t"), None, None)),
        Event::Collected,
    ]);
    let calls: Vec<&Action> = asked.iter().filter(|a| is_network_call(a)).collect();
    assert_eq!(
        calls,
        vec![
            &Action::CheckDupe { forced: false },
            &Action::CheckDupe { forced: true },
            &Action::Upload { token: String::from("t") },
        ]
    );
}
