use gst_core::abi::{
    Format, SeekFlags, SeekType, State, StateChangeReturn, CLOCK_TIME_NONE, CLOCK_TIME_POLL,
    SEEK_FLAG_FLUSH, SEEK_FLAG_KEY_UNIT,
};
use gst_core::bus::{Bus, FindBus};
use gst_core::calls::{Confirm, Inspect, Measure, Settle, Settled, Transition};
use gst_core::clock::{Progress, Ratio, Seconds, NANOSECONDS_PER_SECOND};
use gst_core::element::Element;
use gst_core::engine::{Machine, Reply, Request, StateReport, Step};
use gst_core::handle::Handle;
use gst_core::link::LinkChain;
use gst_core::pad::{FindPad, Pad};
use gst_core::rate::Rate;
use gst_core::speed::{SpeedChange, SEEK_TO_END, SPEED_SEEK_FLAGS};

fn handle(addr: usize) -> Handle {
    Handle::from_raw(addr).expect("a handle for a non-null address")
}

fn element(addr: usize) -> Element {
    Element::new_from_gst_element(addr).expect("an element for a non-null address")
}

/// Runs an operation against an engine that gives `replies` in order, and
/// records the calls.
fn drive<'a, M: Machine<'a>>(
    mut step: Step<'a, M, M::Output>,
    replies: &[Reply],
) -> (Vec<Request<'a>>, M::Output) {
    let mut calls = Vec::new();
    let mut replies = replies.iter();
    loop {
        match step {
            Step::Call(machine, request) => {
                calls.push(request);
                let reply = replies.next().expect("a reply for each call");
                step = machine.resume(reply);
            },
            Step::Done(output) => return (calls, output),
        }
    }
}

fn link(src: usize, dst: usize) -> Request<'static> {
    Request::Link { src: handle(src), dst: handle(dst) }
}

#[test]
fn link_asks_for_source_then_destination() {
    let a = element(0xa0);
    let b = element(0xb0);
    assert_eq!(a.link(&b), Step::Call(Confirm, link(0xa0, 0xb0)));
    assert_eq!(b.link(&a), Step::Call(Confirm, link(0xb0, 0xa0)));
}

#[test]
fn link_is_true_only_for_the_engines_true() {
    let a = element(0xa0);
    let b = element(0xb0);
    assert_eq!(drive(a.link(&b), &[Reply::Flag(1)]).1, true);
    assert_eq!(drive(a.link(&b), &[Reply::Flag(0)]).1, false);
    assert_eq!(drive(a.link(&b), &[Reply::Flag(2)]).1, false);
    assert_eq!(drive(a.link(&b), &[Reply::Flag(-1)]).1, false);
    assert_eq!(drive(a.link(&b), &[Reply::Nothing]).1, false);
    assert_eq!(drive(a.link(&b), &[Reply::Pointer(1)]).1, false);
}

#[test]
fn unlink_asks_once_and_returns_nothing() {
    let a = element(0xa0);
    let b = element(0xb0);
    let (calls, ()) = drive(a.unlink(&b), &[Reply::Nothing]);
    assert_eq!(calls, vec![Request::Unlink { src: handle(0xa0), dst: handle(0xb0) }]);
    assert_eq!(a.unlink(&b), Step::Call(Settle, Request::Unlink { src: handle(0xa0), dst: handle(0xb0) }));
}

#[test]
fn link_chain_stops_at_first_failure() {
    let a = element(0xa0);
    let b = element(0xb0);
    let c = element(0xc0);
    let chain = [&a, &b, &c];
    let (calls, linked) = drive(Element::link_many(&chain), &[Reply::Flag(1), Reply::Flag(0)]);
    assert_eq!(linked, false);
    // A-B was linked and is not unlinked; B-C was tried; nothing follows.
    assert_eq!(calls, vec![link(0xa0, 0xb0), link(0xb0, 0xc0)]);
}

#[test]
fn link_chain_tries_nothing_after_a_failure() {
    let a = element(0xa0);
    let b = element(0xb0);
    let c = element(0xc0);
    let d = element(0xd0);
    let chain = [&a, &b, &c, &d];
    let replies = [Reply::Flag(1), Reply::Flag(0), Reply::Flag(1)];
    let (calls, linked) = drive(Element::link_many(&chain), &replies);
    assert_eq!(linked, false);
    assert_eq!(calls, vec![link(0xa0, 0xb0), link(0xb0, 0xc0)]);

    let (calls, linked) = drive(Element::link_many(&chain), &[Reply::Flag(0)]);
    assert_eq!(linked, false);
    assert_eq!(calls, vec![link(0xa0, 0xb0)]);
}

#[test]
fn link_chain_links_every_pair_in_order() {
    let a = element(0xa0);
    let b = element(0xb0);
    let c = element(0xc0);
    let d = element(0xd0);
    let chain = [&a, &b, &c, &d];
    let replies = [Reply::Flag(1), Reply::Flag(1), Reply::Flag(1)];
    let (calls, linked) = drive(Element::link_many(&chain), &replies);
    assert_eq!(linked, true);
    assert_eq!(calls, vec![link(0xa0, 0xb0), link(0xb0, 0xc0), link(0xc0, 0xd0)]);
}

#[test]
fn link_chain_of_two_is_one_link() {
    let a = element(0xa0);
    let b = element(0xb0);
    let chain = [&a, &b];
    assert_eq!(
        Element::link_many(&chain),
        Step::Call(LinkChain { elements: &chain, next: 0 }, link(0xa0, 0xb0))
    );
    assert_eq!(drive(Element::link_many(&chain), &[Reply::Flag(1)]), (vec![link(0xa0, 0xb0)], true));
    assert_eq!(drive(Element::link_many(&chain), &[Reply::Flag(0)]), (vec![link(0xa0, 0xb0)], false));
}

#[test]
fn link_chain_without_a_pair_succeeds_without_a_call() {
    let a = element(0xa0);
    assert_eq!(Element::link_many(&[]), Step::Done(true));
    assert_eq!(Element::link_many(&[&a]), Step::Done(true));
}

#[test]
fn link_chain_never_unlinks() {
    let a = element(0xa0);
    let b = element(0xb0);
    let c = element(0xc0);
    let chain = [&a, &b, &c];
    for replies in [
        [Reply::Flag(0), Reply::Flag(0)],
        [Reply::Flag(1), Reply::Flag(0)],
        [Reply::Flag(1), Reply::Flag(1)],
        [Reply::Nothing, Reply::Flag(1)],
    ] {
        let (calls, _) = drive(Element::link_many(&chain), &replies);
        assert!(calls.iter().all(|call| matches!(call, Request::Link { .. })));
    }
}

#[test]
fn set_state_paused_asks_for_paused() {
    let e = element(0xe0);
    assert_eq!(
        e.set_state(State::Paused),
        Step::Call(Transition, Request::SetState { element: handle(0xe0), state: State::Paused })
    );
}

#[test]
fn set_state_gives_the_engines_answer() {
    let e = element(0xe0);
    let answers = [
        (0, Some(StateChangeReturn::Failure)),
        (1, Some(StateChangeReturn::Success)),
        (2, Some(StateChangeReturn::Async)),
        (3, Some(StateChangeReturn::NoPreroll)),
        (4, None),
    ];
    for (code, expected) in answers {
        // The same answer gives the same result, every time.
        for _ in 0..3 {
            let (calls, result) = drive(e.set_state(State::Paused), &[Reply::StateChange(code)]);
            assert_eq!(calls.len(), 1);
            assert_eq!(result, expected);
        }
    }
    assert_eq!(drive(e.set_state(State::Paused), &[Reply::Flag(1)]).1, None);
}

#[test]
fn state_shortcuts_ask_for_their_state() {
    let e = element(0xe0);
    assert_eq!(e.set_null_state(), e.set_state(State::Null));
    assert_eq!(e.set_ready_state(), e.set_state(State::Ready));
    assert_eq!(e.pause(), e.set_state(State::Paused));
    assert_eq!(e.play(), e.set_state(State::Playing));
    assert_eq!(
        e.play(),
        Step::Call(Transition, Request::SetState { element: handle(0xe0), state: State::Playing })
    );
}

#[test]
fn get_state_hands_the_timeout_on() {
    let e = element(0xe0);
    for timeout in [CLOCK_TIME_POLL, 1, 1_000_000_000, CLOCK_TIME_NONE] {
        assert_eq!(
            e.get_state(timeout),
            Step::Call(Inspect, Request::GetState { element: handle(0xe0), timeout })
        );
    }
}

#[test]
fn get_state_reads_all_three_numbers() {
    let e = element(0xe0);
    let reply = Reply::States { result: 2, current: 2, pending: 3 };
    assert_eq!(
        drive(e.get_state(0), &[reply]).1,
        Some(StateReport {
            current: State::Ready,
            pending: State::Paused,
            result: StateChangeReturn::Async,
        })
    );
    let settled = Reply::States { result: 1, current: 4, pending: 0 };
    assert_eq!(
        drive(e.get_state(0), &[settled]).1,
        Some(StateReport {
            current: State::Playing,
            pending: State::VoidPending,
            result: StateChangeReturn::Success,
        })
    );
}

#[test]
fn get_state_with_an_unknown_number_is_absent() {
    let e = element(0xe0);
    for reply in [
        Reply::States { result: 9, current: 1, pending: 0 },
        Reply::States { result: 1, current: 9, pending: 0 },
        Reply::States { result: 1, current: 1, pending: 9 },
        Reply::StateChange(1),
        Reply::Nothing,
    ] {
        assert_eq!(drive(e.get_state(0), &[reply]).1, None);
    }
}

#[test]
fn state_questions_wait_without_limit() {
    let e = element(0xe0);
    let wait = Request::GetState { element: handle(0xe0), timeout: CLOCK_TIME_NONE };
    assert_eq!(e.is_paused(), Step::Call(Settled { wanted: State::Paused }, wait));
    let wait = Request::GetState { element: handle(0xe0), timeout: u64::MAX };
    assert_eq!(e.is_playing(), Step::Call(Settled { wanted: State::Playing }, wait));
    let wait = Request::GetState { element: handle(0xe0), timeout: u64::MAX };
    assert_eq!(e.is_null_state(), Step::Call(Settled { wanted: State::Null }, wait));
    let wait = Request::GetState { element: handle(0xe0), timeout: u64::MAX };
    assert_eq!(e.is_ready_state(), Step::Call(Settled { wanted: State::Ready }, wait));
}

#[test]
fn state_questions_want_exactly_their_state_with_success() {
    let e = element(0xe0);
    let paused = Reply::States { result: 1, current: 3, pending: 0 };
    assert_eq!(drive(e.is_paused(), &[paused]).1, true);
    assert_eq!(drive(e.is_playing(), &[paused]).1, false);
    assert_eq!(drive(e.is_null_state(), &[paused]).1, false);
    assert_eq!(drive(e.is_ready_state(), &[paused]).1, false);

    let playing = Reply::States { result: 1, current: 4, pending: 0 };
    assert_eq!(drive(e.is_playing(), &[playing]).1, true);
    let null = Reply::States { result: 1, current: 1, pending: 0 };
    assert_eq!(drive(e.is_null_state(), &[null]).1, true);
    let ready = Reply::States { result: 1, current: 2, pending: 0 };
    assert_eq!(drive(e.is_ready_state(), &[ready]).1, true);

    // The pending state does not matter.
    let pending = Reply::States { result: 1, current: 3, pending: 4 };
    assert_eq!(drive(e.is_paused(), &[pending]).1, true);

    // Nor does it matter whether the pending state is a known one.
    let unknown = Reply::States { result: 1, current: 3, pending: 9 };
    assert_eq!(drive(e.is_paused(), &[unknown]).1, true);

    // The right state with any result but success does not count.
    for result in [0, 2, 3, 7] {
        let reply = Reply::States { result, current: 3, pending: 0 };
        assert_eq!(drive(e.is_paused(), &[reply]).1, false);
    }
    assert_eq!(drive(e.is_paused(), &[Reply::Nothing]).1, false);
}

#[test]
fn settled_in_compares_state_and_result() {
    let report = StateReport {
        current: State::Paused,
        pending: State::Playing,
        result: StateChangeReturn::Success,
    };
    assert!(report.settled_in(State::Paused));
    assert!(!report.settled_in(State::Playing));
    let pending = StateReport { result: StateChangeReturn::Async, ..report };
    assert!(!pending.settled_in(State::Paused));
}

#[test]
fn query_is_absent_before_preroll() {
    let e = element(0xe0);
    let unanswered = Reply::Value { answered: 0, value: 0 };
    assert_eq!(drive(e.query_duration(Format::Time), &[unanswered]).1, None);
    assert_eq!(drive(e.query_position(Format::Time), &[unanswered]).1, None);
    assert_eq!(drive(e.duration_ns(), &[unanswered]).1, None);
    assert_eq!(drive(e.position_ns(), &[unanswered]).1, None);
    let stale = Reply::Value { answered: 0, value: 5_000_000_000 };
    assert_eq!(drive(e.duration_ns(), &[stale]).1, None);
}

#[test]
fn query_gives_nanoseconds_after_preroll() {
    let e = element(0xe0);
    let duration = Reply::Value { answered: 1, value: 5_000_000_000 };
    assert_eq!(drive(e.duration_ns(), &[duration]).1, Some(5_000_000_000));
    let start = Reply::Value { answered: 1, value: 0 };
    assert_eq!(drive(e.position_ns(), &[start]).1, Some(0));
    let last = Reply::Value { answered: 1, value: i64::MAX };
    assert_eq!(drive(e.position_ns(), &[last]).1, Some(i64::MAX));
}

#[test]
fn query_never_gives_a_negative_value() {
    let e = element(0xe0);
    for value in [-1, -2, i64::MIN] {
        let reply = Reply::Value { answered: 1, value };
        assert_eq!(drive(e.query_duration(Format::Time), &[reply]).1, None);
        assert_eq!(drive(e.query_position(Format::Bytes), &[reply]).1, None);
    }
    assert_eq!(Reply::Value { answered: 1, value: -1 }.value(), None);
}

#[test]
fn query_wants_the_engines_true() {
    let e = element(0xe0);
    for answered in [2, -1, i32::MAX] {
        let reply = Reply::Value { answered, value: 7 };
        assert_eq!(drive(e.position_ns(), &[reply]).1, None);
    }
    assert_eq!(drive(e.position_ns(), &[Reply::Flag(1)]).1, None);
}

#[test]
fn queries_ask_in_their_unit() {
    let e = element(0xe0);
    assert_eq!(
        e.query_duration(Format::Bytes),
        Step::Call(Measure, Request::QueryDuration { element: handle(0xe0), format: Format::Bytes })
    );
    assert_eq!(
        e.query_position(Format::Percent),
        Step::Call(Measure, Request::QueryPosition { element: handle(0xe0), format: Format::Percent })
    );
    assert_eq!(e.duration_ns(), e.query_duration(Format::Time));
    assert_eq!(e.position_ns(), e.query_position(Format::Time));
}

#[test]
fn seconds_are_nanoseconds_over_a_billion() {
    let e = element(0xe0);
    assert_eq!(NANOSECONDS_PER_SECOND, 1_000_000_000);
    let reply = Reply::Value { answered: 1, value: 2_500_000_000 };
    let expected = Some(Ratio { numerator: 2_500_000_000, denominator: 1_000_000_000 });
    let (calls, seconds) = drive(e.duration_s(), &[reply]);
    assert_eq!(calls, vec![Request::QueryDuration { element: handle(0xe0), format: Format::Time }]);
    assert_eq!(seconds, expected);
    let ratio = seconds.unwrap();
    assert_eq!(ratio.numerator as f64 / ratio.denominator as f64, 2.5);
    let (calls, seconds) = drive(e.position_s(), &[reply]);
    assert_eq!(calls, vec![Request::QueryPosition { element: handle(0xe0), format: Format::Time }]);
    assert_eq!(seconds, expected);
    assert_eq!(e.duration_s(), Step::Call(Seconds, Request::QueryDuration { element: handle(0xe0), format: Format::Time }));
}

#[test]
fn seconds_are_absent_where_nanoseconds_are() {
    let e = element(0xe0);
    let unanswered = Reply::Value { answered: 0, value: 0 };
    assert_eq!(drive(e.duration_s(), &[unanswered]).1, None);
    assert_eq!(drive(e.position_s(), &[unanswered]).1, None);
    assert_eq!(Ratio::seconds(None), None);
    assert_eq!(Ratio::seconds(Some(1)), Some(Ratio { numerator: 1, denominator: 1_000_000_000 }));
}

#[test]
fn position_pct_is_position_over_duration() {
    let e = element(0xe0);
    let pairs: [(i64, i64); 6] = [
        (0, 10_000_000_000),
        (10_000_000_000, 10_000_000_000),
        (2_500_000_000, 10_000_000_000),
        (1, 3),
        (0, 0),
        (i64::MAX, i64::MAX),
    ];
    for (position, duration) in pairs {
        let replies = [
            Reply::Value { answered: 1, value: position },
            Reply::Value { answered: 1, value: duration },
        ];
        let (calls, pct) = drive(e.position_pct(), &replies);
        assert_eq!(
            calls,
            vec![
                Request::QueryPosition { element: handle(0xe0), format: Format::Time },
                Request::QueryDuration { element: handle(0xe0), format: Format::Time },
            ]
        );
        assert_eq!(pct, Some(Ratio { numerator: position, denominator: duration }));
        assert_eq!(Ratio::fraction(Some(position), Some(duration)), pct);
    }
    let quarter = Ratio::fraction(Some(2_500_000_000), Some(10_000_000_000)).unwrap();
    assert_eq!(quarter.numerator as f64 / quarter.denominator as f64, 0.25);
    let start = Ratio::fraction(Some(0), Some(10_000_000_000)).unwrap();
    assert_eq!(start.numerator as f64 / start.denominator as f64, 0.0);
    let end = Ratio::fraction(Some(10_000_000_000), Some(10_000_000_000)).unwrap();
    assert_eq!(end.numerator as f64 / end.denominator as f64, 1.0);
}

#[test]
fn position_pct_is_absent_where_either_is() {
    let e = element(0xe0);
    let known = Reply::Value { answered: 1, value: 4 };
    let unknown = Reply::Value { answered: 0, value: 4 };
    for replies in [[unknown, known], [known, unknown], [unknown, unknown]] {
        let (calls, pct) = drive(e.position_pct(), &replies);
        assert_eq!(calls.len(), 2);
        assert_eq!(pct, None);
    }
    assert_eq!(Ratio::fraction(None, Some(4)), None);
    assert_eq!(Ratio::fraction(Some(4), None), None);
    assert_eq!(Ratio::fraction(None, None), None);
    assert_eq!(
        e.position_pct(),
        Step::Call(
            Progress::Position { element: handle(0xe0) },
            Request::QueryPosition { element: handle(0xe0), format: Format::Time }
        )
    );
}

#[test]
fn seek_simple_hands_its_arguments_on() {
    let e = element(0xe0);
    let flags = SeekFlags::from_bits(SEEK_FLAG_FLUSH | SEEK_FLAG_KEY_UNIT);
    let expected = Request::SeekSimple {
        element: handle(0xe0),
        format: Format::Bytes,
        flags: SeekFlags { bits: 5 },
        position: 4096,
    };
    assert_eq!(e.seek_simple(Format::Bytes, flags, 4096), Step::Call(Confirm, expected));
    assert_eq!(drive(e.seek_simple(Format::Bytes, flags, 4096), &[Reply::Flag(1)]).1, true);
    assert_eq!(drive(e.seek_simple(Format::Bytes, flags, 4096), &[Reply::Flag(0)]).1, false);
}

#[test]
fn seek_hands_its_arguments_on() {
    let e = element(0xe0);
    let rate = Rate::from_bits((-2.0f64).to_bits());
    let step = e.seek(
        rate,
        Format::Time,
        SeekFlags::from_bits(SEEK_FLAG_FLUSH),
        SeekType::Absolute,
        10,
        SeekType::FromEnd,
        20,
    );
    let expected = Request::Seek {
        element: handle(0xe0),
        rate: Rate { bits: 0xc000_0000_0000_0000 },
        format: Format::Time,
        flags: SeekFlags { bits: 1 },
        start_type: SeekType::Absolute,
        start: 10,
        stop_type: SeekType::FromEnd,
        stop: 20,
    };
    assert_eq!(step, Step::Call(Confirm, expected));
}

#[test]
fn set_position_ns_seeks_in_time_with_flush() {
    let e = element(0xe0);
    let expected = Request::SeekSimple {
        element: handle(0xe0),
        format: Format::Time,
        flags: SeekFlags { bits: 1 },
        position: 1_500_000_000,
    };
    assert_eq!(e.set_position_ns(1_500_000_000), Step::Call(Confirm, expected));
    assert_eq!(drive(e.set_position_ns(0), &[Reply::Flag(0)]).1, false);
    assert_eq!(drive(e.set_position_ns(0), &[Reply::Flag(1)]).1, true);
}

fn rate(value: f64) -> Rate {
    Rate::from_bits(value.to_bits())
}

fn pause(element: usize) -> Request<'static> {
    Request::SetState { element: handle(element), state: State::Paused }
}

fn locate(element: usize) -> Request<'static> {
    Request::QueryPosition { element: handle(element), format: Format::Time }
}

fn speed_seek(element: usize, value: f64, start: i64, stop: i64) -> Request<'static> {
    Request::Seek {
        element: handle(element),
        rate: rate(value),
        format: Format::Time,
        flags: SeekFlags { bits: 19 },
        start_type: SeekType::Absolute,
        start,
        stop_type: SeekType::Absolute,
        stop,
    }
}

#[test]
fn set_speed_zero_pauses() {
    let e = element(0xe0);
    assert_eq!(e.set_speed(rate(0.0)), Step::Call(SpeedChange::Pausing, pause(0xe0)));
    assert_eq!(e.set_speed(rate(-0.0)), Step::Call(SpeedChange::Pausing, pause(0xe0)));
    for (code, expected) in [(0, false), (1, true), (2, true), (3, true), (4, true)] {
        let (calls, changed) = drive(e.set_speed(rate(0.0)), &[Reply::StateChange(code)]);
        assert_eq!(calls, vec![pause(0xe0)]);
        assert_eq!(changed, expected);
    }
    assert_eq!(drive(e.set_speed(rate(0.0)), &[Reply::Flag(1)]).1, false);
}

#[test]
fn set_speed_zero_pauses_after_any_rate() {
    let e = element(0xe0);
    let position = Reply::Value { answered: 1, value: 3_000_000_000 };
    for before in [1.0f64, 2.0, -1.0, 0.25] {
        let (_, changed) = drive(e.set_speed(rate(before)), &[position, Reply::Flag(1)]);
        assert!(changed);
        let (calls, changed) = drive(e.set_speed(rate(0.0)), &[Reply::StateChange(1)]);
        assert_eq!(calls, vec![pause(0xe0)]);
        assert!(changed);
    }
}

#[test]
fn set_speed_forward_plays_from_the_position_to_the_end() {
    let e = element(0xe0);
    let position = Reply::Value { answered: 1, value: 3_000_000_000 };
    let (calls, changed) = drive(e.set_speed(rate(2.0)), &[position, Reply::Flag(1)]);
    assert_eq!(calls, vec![locate(0xe0), speed_seek(0xe0, 2.0, 3_000_000_000, -1)]);
    assert!(changed);
    assert_eq!(SEEK_TO_END, -1);
    assert_eq!(SPEED_SEEK_FLAGS, 19);
    let (_, changed) = drive(e.set_speed(rate(2.0)), &[position, Reply::Flag(0)]);
    assert!(!changed);
}

#[test]
fn set_speed_reverse_plays_from_the_start_to_the_position() {
    let e = element(0xe0);
    let position = Reply::Value { answered: 1, value: 3_000_000_000 };
    let (calls, changed) = drive(e.set_speed(rate(-1.0)), &[position, Reply::Flag(1)]);
    assert_eq!(calls, vec![locate(0xe0), speed_seek(0xe0, -1.0, 0, 3_000_000_000)]);
    assert!(changed);
    match &calls[1] {
        Request::Seek { start, stop, .. } => {
            assert!(0 <= *start && *start <= *stop && *stop <= 3_000_000_000);
        },
        other => panic!("{:?}", other),
    }
}

#[test]
fn set_speed_at_position_zero_seeks_all_the_same() {
    let e = element(0xe0);
    let position = Reply::Value { answered: 1, value: 0 };
    let (calls, _) = drive(e.set_speed(rate(-1.0)), &[position, Reply::Flag(1)]);
    assert_eq!(calls, vec![locate(0xe0), speed_seek(0xe0, -1.0, 0, 0)]);
    let (calls, _) = drive(e.set_speed(rate(1.0)), &[position, Reply::Flag(1)]);
    assert_eq!(calls, vec![locate(0xe0), speed_seek(0xe0, 1.0, 0, -1)]);
}

#[test]
fn set_speed_fails_without_a_position() {
    let e = element(0xe0);
    for reply in [
        Reply::Value { answered: 0, value: 0 },
        Reply::Value { answered: 1, value: -1 },
        Reply::Nothing,
    ] {
        for value in [1.0f64, -1.0] {
            let (calls, changed) = drive(e.set_speed(rate(value)), &[reply]);
            assert_eq!(calls, vec![locate(0xe0)]);
            assert!(!changed);
        }
    }
}

#[test]
fn set_speed_that_is_no_number_seeks_as_a_negative_rate_does() {
    let e = element(0xe0);
    let position = Reply::Value { answered: 1, value: 8 };
    let nan = Rate::from_bits(f64::NAN.to_bits());
    let (calls, _) = drive(e.set_speed(nan), &[position, Reply::Flag(0)]);
    assert_eq!(calls.len(), 2);
    match &calls[1] {
        Request::Seek { rate, start, stop, .. } => {
            assert_eq!(*rate, nan);
            assert_eq!((*start, *stop), (0, 8));
        },
        other => panic!("{:?}", other),
    }
}

#[test]
fn bus_is_absent_for_null() {
    let e = element(0xe0);
    assert_eq!(e.bus(), Step::Call(FindBus, Request::GetBus { element: handle(0xe0) }));
    assert_eq!(drive(e.bus(), &[Reply::Pointer(0)]).1, None);
    assert_eq!(drive(e.bus(), &[Reply::Nothing]).1, None);
    assert_eq!(drive(e.bus(), &[Reply::Pointer(0xb000)]).1, Bus::new(0xb000));
    assert_eq!(drive(e.bus(), &[Reply::Pointer(0xb000)]).1.unwrap().gst_bus(), 0xb000);
}

#[test]
fn static_pad_is_absent_for_null() {
    let e = element(0xe0);
    assert_eq!(
        e.static_pad("sink"),
        Step::Call(FindPad, Request::GetStaticPad { element: handle(0xe0), name: "sink" })
    );
    assert_eq!(drive(e.static_pad("sink"), &[Reply::Pointer(0)]).1, None);
    assert_eq!(drive(e.static_pad("src"), &[Reply::Pointer(0xa000)]).1, Pad::new(0xa000));
}

#[test]
fn set_name_names_the_element() {
    let e = element(0xe0);
    assert_eq!(
        e.set_name("decoder"),
        Step::Call(Settle, Request::SetName { object: handle(0xe0), name: "decoder" })
    );
    assert_eq!(
        e.as_ref().set_name("decoder"),
        Step::Call(Settle, Request::SetName { object: handle(0xe0), name: "decoder" })
    );
}

#[test]
fn send_event_hands_the_event_over() {
    let e = element(0xe0);
    let event = handle(0xe700);
    assert_eq!(
        e.send_event(event),
        Step::Call(Confirm, Request::SendEvent { element: handle(0xe0), event })
    );
    assert_eq!(drive(e.send_event(event), &[Reply::Flag(1)]).1, true);
    assert_eq!(drive(e.send_event(event), &[Reply::Flag(0)]).1, false);
}

#[test]
fn replies_are_read_by_their_shape() {
    assert!(Reply::Flag(1).is_true());
    assert!(!Reply::Flag(2).is_true());
    assert!(Reply::Flag(2).is_set());
    assert!(Reply::Flag(-1).is_set());
    assert!(!Reply::Flag(0).is_set());
    assert!(!Reply::Pointer(1).is_set());
    assert_eq!(Reply::Pointer(0x10).object(), Handle::from_raw(0x10));
    assert_eq!(Reply::Pointer(0).object(), None);
    assert_eq!(Reply::Flag(0x10).object(), None);
    assert_eq!(Reply::StateChange(2).state_change(), Some(StateChangeReturn::Async));
    assert_eq!(Reply::Flag(2).state_change(), None);
}

#[test]
fn set_position_pct_without_a_duration_seeks_nothing() {
    let e = element(0xe0);
    assert_eq!(e.set_position_pct(None), Step::Done(false));
}

#[test]
fn set_position_pct_seeks_to_the_scaled_duration() {
    let e = element(0xe0);
    let duration: i64 = 10_000_000_000;
    let target = (duration as f64 * 0.25) as i64;
    assert_eq!(target, 2_500_000_000);
    assert_eq!(e.set_position_pct(Some(target)), e.set_position_ns(2_500_000_000));
    assert_eq!(drive(e.set_position_pct(Some(target)), &[Reply::Flag(1)]).1, true);
}
