use evergarden::model::{BodyReadError, EvergardenError, UrlInfo};
use evergarden::protocol::{
    copy_range, push_u64_le, ClientReader, ClientRequest, ClientWriter, ReadOp, ServerRequest,
};
use evergarden::script::{
    aggregate, instance_ids, on_frame, write_fetch_answer, FetchedResponse, FrameAction,
    InstanceEvent, InstanceState, ScriptId, SkipReason,
};

#[test]
fn opcodes() {
    assert_eq!(ServerRequest::Submit.code(), 0);
    assert_eq!(ServerRequest::AnswerFetch.code(), 1);
    assert_eq!(ServerRequest::CloseScript.code(), 2);
}

#[test]
fn u64_is_written_lowest_byte_first() {
    let mut out = vec![9u8];
    push_u64_le(&mut out, 0x0102_0304_0506_0708);
    assert_eq!(out, vec![9, 8, 7, 6, 5, 4, 3, 2, 1]);
    let mut out = Vec::new();
    push_u64_le(&mut out, u64::MAX);
    assert_eq!(out, u64::MAX.to_le_bytes().to_vec());
    let mut out = Vec::new();
    push_u64_le(&mut out, 300);
    assert_eq!(out, 300u64.to_le_bytes().to_vec());
}

#[test]
fn submit_frame_layout() {
    let mut writer = ClientWriter::new();
    writer.submit(b"{}", &vec![b"abc".to_vec(), b"de".to_vec()]);
    let mut expected = vec![0u8];
    expected.extend_from_slice(&2u64.to_le_bytes());
    expected.extend_from_slice(b"{}");
    expected.extend_from_slice(&3u64.to_le_bytes());
    expected.extend_from_slice(b"abc");
    expected.extend_from_slice(&2u64.to_le_bytes());
    expected.extend_from_slice(b"de");
    expected.extend_from_slice(&0u64.to_le_bytes());
    assert_eq!(writer.take(), expected);
    assert_eq!(writer.take(), Vec::<u8>::new());
}

#[test]
fn submit_frame_in_pieces_is_the_same_frame() {
    let mut whole = ClientWriter::new();
    whole.submit(b"meta", &vec![b"one".to_vec(), b"two".to_vec()]);
    let mut pieces = ClientWriter::new();
    pieces.begin_submit();
    pieces.write_head(b"meta");
    pieces.write_chunk(b"one");
    pieces.write_chunk(b"two");
    pieces.write_end();
    assert_eq!(whole.take(), pieces.take());
}

#[test]
fn answer_fetch_frames() {
    let mut writer = ClientWriter::new();
    writer.answer_fetch(b"m", &Vec::new());
    let mut expected = vec![1u8, 0u8];
    expected.extend_from_slice(&1u64.to_le_bytes());
    expected.push(b'm');
    expected.extend_from_slice(&0u64.to_le_bytes());
    assert_eq!(writer.take(), expected);

    writer.error_fetch("invalid_url");
    let mut expected = vec![1u8, 1u8];
    expected.extend_from_slice(&11u64.to_le_bytes());
    expected.extend_from_slice(b"invalid_url");
    assert_eq!(writer.take(), expected);

    writer.close_script();
    assert_eq!(writer.take(), vec![2u8]);

    let mut pieces = ClientWriter::new();
    pieces.begin_answer_fetch();
    pieces.write_res(b"m", &Vec::new());
    writer.answer_fetch(b"m", &Vec::new());
    assert_eq!(pieces.take(), writer.take());
}

#[test]
fn frames_are_read_as_they_arrive() {
    let mut reader = ClientReader::new();
    assert_eq!(reader.read_op(), ReadOp::NeedMore(1));
    reader.feed(&[0]);
    assert_eq!(reader.read_op(), ReadOp::NeedMore(2));
    reader.feed(&[5]);
    assert_eq!(reader.read_op(), ReadOp::NeedMore(1));
    reader.feed(&[0]);
    assert_eq!(reader.read_op(), ReadOp::NeedMore(5));
    reader.feed(b"/a");
    assert_eq!(reader.read_op(), ReadOp::NeedMore(3));
    reader.feed(b"bcd\x01\x02\x00hi\x02\x02");
    assert_eq!(reader.read_op(), ReadOp::Request(ClientRequest::Submit { url: "/abcd".to_string() }));
    assert_eq!(reader.read_op(), ReadOp::Request(ClientRequest::Fetch { url: "hi".to_string() }));
    assert_eq!(reader.read_op(), ReadOp::Request(ClientRequest::EndFile));
    assert_eq!(reader.read_op(), ReadOp::Request(ClientRequest::EndFile));
    assert_eq!(reader.read_op(), ReadOp::NeedMore(1));
}

#[test]
fn long_urls_use_both_length_bytes() {
    let url = "x".repeat(0x0203);
    let mut reader = ClientReader::new();
    reader.feed(&[1, 0x03, 0x02]);
    assert_eq!(reader.read_op(), ReadOp::NeedMore(0x0203));
    reader.feed(url.as_bytes());
    assert_eq!(reader.read_op(), ReadOp::Request(ClientRequest::Fetch { url }));
}

#[test]
fn empty_url_is_a_frame() {
    let mut reader = ClientReader::new();
    reader.feed(&[0, 0, 0]);
    assert_eq!(reader.read_op(), ReadOp::Request(ClientRequest::Submit { url: String::new() }));
}

#[test]
fn invalid_frames_are_refused_and_left_in_place() {
    let mut reader = ClientReader::new();
    reader.feed(&[3, 0, 0]);
    assert_eq!(reader.read_op(), ReadOp::Invalid);
    assert_eq!(reader.read_op(), ReadOp::Invalid);
    let mut reader = ClientReader::new();
    reader.feed(&[0, 2, 0, 0xff, 0xfe, 2]);
    assert_eq!(reader.read_op(), ReadOp::Invalid);
    assert_eq!(reader.read_op(), ReadOp::Invalid);
}

#[test]
fn copy_range_copies() {
    assert_eq!(copy_range(&vec![1, 2, 3, 4], 1, 3), vec![2, 3]);
    assert_eq!(copy_range(&vec![1, 2, 3, 4], 4, 4), Vec::<u8>::new());
}

#[test]
fn script_id_is_shown_with_three_digits() {
    assert_eq!(ScriptId { name: "links".to_string(), counter: 7 }.to_text(), "links[007]");
    assert_eq!(ScriptId { name: "".to_string(), counter: 1234 }.to_text(), "[1234]");
    let ids = instance_ids("w", 3);
    let shown: Vec<String> = ids.iter().map(|i| i.to_text()).collect();
    assert_eq!(shown, vec!["w[000]", "w[001]", "w[002]"]);
    assert!(instance_ids("w", 0).is_empty());
}

#[test]
fn found_urls_are_followed_up_to_max_hops() {
    let base = UrlInfo::start("https://example.com/page").unwrap();
    match on_frame(&base, 0, ClientRequest::Submit { url: "/next".to_string() }) {
        FrameAction::Enqueue(next) => {
            assert_eq!(next.url.as_str(), "https://example.com/next");
            assert_eq!(next.discovered_in.as_str(), "https://example.com/page");
            assert_eq!(next.hops, 0);
        }
        other => panic!("{other:?}"),
    }
    match on_frame(&base, 0, ClientRequest::Submit { url: "https://other.org/".to_string() }) {
        FrameAction::Skip(SkipReason::TooManyHops) => {}
        other => panic!("{other:?}"),
    }
    match on_frame(&base, 1, ClientRequest::Submit { url: "https://other.org/".to_string() }) {
        FrameAction::Enqueue(next) => assert_eq!(next.hops, 1),
        other => panic!("{other:?}"),
    }
    match on_frame(&base, 5, ClientRequest::Submit { url: "http://[".to_string() }) {
        FrameAction::Skip(SkipReason::InvalidUrl) => {}
        other => panic!("{other:?}"),
    }
}

#[test]
fn fetches_are_answered_whatever_their_hops() {
    let base = UrlInfo::start("https://example.com/page").unwrap();
    match on_frame(&base, 0, ClientRequest::Fetch { url: "https://other.org/x".to_string() }) {
        FrameAction::FetchThenAnswer(next) => {
            assert_eq!(next.url.as_str(), "https://other.org/x");
            assert_eq!(next.hops, 1);
        }
        other => panic!("{other:?}"),
    }
    match on_frame(&base, 0, ClientRequest::Fetch { url: "http://[".to_string() }) {
        FrameAction::AnswerError(message) => assert_eq!(message, "invalid_url"),
        other => panic!("{other:?}"),
    }
    match on_frame(&base, 0, ClientRequest::EndFile) {
        FrameAction::Done => {}
        other => panic!("{other:?}"),
    }
}

#[test]
fn fetch_answers() {
    let mut writer = ClientWriter::new();
    let ok = Ok(FetchedResponse { meta_json: b"{}".to_vec(), body: vec![b"x".to_vec()] });
    write_fetch_answer(&mut writer, &ok);
    let mut expected = ClientWriter::new();
    expected.answer_fetch(b"{}", &vec![b"x".to_vec()]);
    let frame = writer.take();
    assert_eq!(&frame[..2], &[1, 0]);
    assert_eq!(frame, expected.take());

    let failed = Err(EvergardenError::BodyRead(BodyReadError::TimedOut));
    write_fetch_answer(&mut writer, &failed);
    expected.error_fetch("response timed out");
    assert_eq!(writer.take(), expected.take());
}

#[test]
fn instance_states() {
    let idle = InstanceState::Idle;
    let awaiting = InstanceState::AwaitingFrames;
    let closing = InstanceState::Closing;
    let terminated = InstanceState::Terminated;
    assert_eq!(idle.on(InstanceEvent::Submitted), Some(awaiting));
    assert_eq!(awaiting.on(InstanceEvent::Frame), Some(awaiting));
    assert_eq!(awaiting.on(InstanceEvent::EndFile), Some(idle));
    assert_eq!(idle.on(InstanceEvent::Close), Some(closing));
    assert_eq!(closing.on(InstanceEvent::Exited), Some(terminated));
    assert_eq!(awaiting.on(InstanceEvent::Submitted), None);
    assert_eq!(awaiting.on(InstanceEvent::Close), None);
    assert_eq!(closing.on(InstanceEvent::Submitted), None);
    assert_eq!(terminated.on(InstanceEvent::Submitted), None);
    assert_eq!(terminated.on(InstanceEvent::Exited), None);
    assert_eq!(idle.on(InstanceEvent::EndFile), None);
    assert!(idle.accepts_request());
    assert!(!awaiting.accepts_request());
    assert!(!closing.accepts_request());
    assert!(!terminated.accepts_request());
}

#[test]
fn aggregate_hands_back_the_first_failure() {
    assert_eq!(aggregate(Vec::new()), Ok(()));
    assert_eq!(aggregate(vec![Ok(()), Ok(())]), Ok(()));
    assert_eq!(
        aggregate(vec![
            Ok(()),
            Err(EvergardenError::IO("first".to_string())),
            Err(EvergardenError::IO("second".to_string())),
        ]),
        Err(EvergardenError::IO("first".to_string()))
    );
}
