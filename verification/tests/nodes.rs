use flow_examples::counter::CounterState;
use flow_examples::detection::{
    banner_rect, banner_text_origin, class_color, detections, label_origin, summary_text, Color,
    Detection, Point, Rect, Size,
};
use flow_examples::fizzbuzz::{buzz_run, fizz_run, BuzzState};
use flow_examples::frames::frame_pair;
use flow_examples::ports::{require_input, NodeError};
use flow_examples::random::random_sample;
use flow_examples::sink::{report_lines, SinkDestination, SinkState};
use flow_examples::text::decimal_string;

fn is_no_data<T, E>(r: &Result<T, NodeError<E>>) -> bool {
    matches!(r, Err(NodeError::NoData))
}

#[test]
fn require_input_cases() {
    let r: Result<u8, NodeError<&str>> = require_input(Some(Ok(7)));
    assert!(matches!(r, Ok(7)));
    let r: Result<u8, NodeError<&str>> = require_input(None);
    assert!(is_no_data(&r));
    let r: Result<u8, NodeError<&str>> = require_input(Some(Err("bad type")));
    assert!(matches!(r, Err(NodeError::Payload("bad type"))));
}

#[test]
fn fizz_even_odd() {
    let out = fizz_run::<()>(Some(Ok(4))).ok().unwrap();
    assert_eq!(out.int, 4);
    assert_eq!(out.text, "Fizz");
    let out = fizz_run::<()>(Some(Ok(7))).ok().unwrap();
    assert_eq!(out.int, 7);
    assert_eq!(out.text, "");
    let out = fizz_run::<()>(Some(Ok(0))).ok().unwrap();
    assert_eq!(out.text, "Fizz");
}

#[test]
fn fizz_missing_input() {
    assert!(is_no_data(&fizz_run::<()>(None)));
    assert!(matches!(fizz_run(Some(Err(3u8))), Err(NodeError::Payload(3))));
}

#[test]
fn buzz_default_word() {
    let state = BuzzState::from_configured(None);
    assert_eq!(state.buzzword, "Buzz");
    let state = BuzzState::from_configured(Some("Bang".to_string()));
    assert_eq!(state.buzzword, "Bang");
}

#[test]
fn buzz_appends_on_multiples_of_three() {
    let state = BuzzState::from_configured(None);
    let r = buzz_run::<()>(&state, Some(Ok("Fizz".to_string())), Some(Ok(6)));
    assert_eq!(r.ok().unwrap(), "FizzBuzz");
    let r = buzz_run::<()>(&state, Some(Ok(String::new())), Some(Ok(9)));
    assert_eq!(r.ok().unwrap(), "Buzz");
    let r = buzz_run::<()>(&state, Some(Ok("Fizz".to_string())), Some(Ok(4)));
    assert_eq!(r.ok().unwrap(), "Fizz");
    let r = buzz_run::<()>(&state, Some(Ok(String::new())), Some(Ok(5)));
    assert_eq!(r.ok().unwrap(), "");
}

#[test]
fn buzz_reads_string_port_first() {
    let state = BuzzState::from_configured(None);
    // Both ports empty: the string port is the one reported.
    assert!(is_no_data(&buzz_run::<u8>(&state, None, None)));
    // An unreadable string payload is reported even when the integer port is empty.
    assert!(matches!(buzz_run(&state, Some(Err(1u8)), None), Err(NodeError::Payload(1))));
    assert!(is_no_data(&buzz_run::<u8>(&state, Some(Ok("x".to_string())), None)));
    assert!(matches!(
        buzz_run(&state, Some(Ok("x".to_string())), Some(Err(2u8))),
        Err(NodeError::Payload(2))
    ));
}

#[test]
fn fizzbuzz_pipeline_values() {
    let state = BuzzState::from_configured(None);
    let expected = ["FizzBuzz", "", "Fizz", "Buzz", "Fizz", "", "FizzBuzz"];
    for (v, want) in [0usize, 1, 2, 3, 4, 5, 6].iter().zip(expected.iter()) {
        let f = fizz_run::<()>(Some(Ok(*v))).ok().unwrap();
        let b = buzz_run::<()>(&state, Some(Ok(f.text)), Some(Ok(f.int))).ok().unwrap();
        assert_eq!(&b, want);
    }
}

#[test]
fn counter_counts_from_configured_initial() {
    let mut c = CounterState::new();
    assert_eq!(c.next, 0);
    c.configure(Some(10));
    assert_eq!(c.tick(), 10);
    assert_eq!(c.tick(), 11);
    assert_eq!(c.tick(), 12);
    assert_eq!(c.next, 13);
}

#[test]
fn counter_without_configuration_keeps_value() {
    let mut c = CounterState::new();
    assert_eq!(c.tick(), 0);
    c.configure(None);
    assert_eq!(c.tick(), 1);
}

#[test]
fn counter_wraps_at_max() {
    let mut c = CounterState::new();
    c.configure(Some(usize::MAX as u64));
    assert_eq!(c.tick(), usize::MAX);
    assert_eq!(c.tick(), 0);
}

#[test]
fn random_source_runs() {
    let _ = random_sample();
}

#[test]
fn sink_destination_and_finalize() {
    let mut s = SinkState::new(Some(5u32));
    assert!(matches!(s.destination(), SinkDestination::File));
    s.finalize();
    assert!(s.file.is_none());
    assert!(matches!(s.destination(), SinkDestination::Stdout));
    s.finalize();
    assert!(s.file.is_none());
    let t: SinkState<u32> = SinkState::new(None);
    assert!(matches!(t.destination(), SinkDestination::Stdout));
}

#[test]
fn sink_report_lines() {
    let lines = report_lines("Msg { x: 1 }");
    assert_eq!(
        lines,
        vec![
            "#######".to_string(),
            "Example Generic Sink Received -> Msg { x: 1 }".to_string(),
            "#######".to_string()
        ]
    );
}

#[test]
fn frame_pair_order() {
    let r = frame_pair::<()>(Some(Ok(vec![1, 2])), Some(Ok(vec![3])));
    let (a, b) = r.ok().unwrap();
    assert_eq!(a, vec![1, 2]);
    assert_eq!(b, vec![3]);
    assert!(is_no_data(&frame_pair::<u8>(None, Some(Err(4)))));
    assert!(matches!(frame_pair(Some(Ok(vec![])), Some(Err(4u8))), Err(NodeError::Payload(4))));
    assert!(is_no_data(&frame_pair::<u8>(Some(Ok(vec![])), None)));
}

#[test]
fn decimal_formatting() {
    assert_eq!(decimal_string(0), "0");
    assert_eq!(decimal_string(7), "7");
    assert_eq!(decimal_string(10), "10");
    assert_eq!(decimal_string(1234567890), "1234567890");
    assert_eq!(decimal_string(u128::MAX), u128::MAX.to_string());
}

#[test]
fn summary_label_text() {
    assert_eq!(summary_text(15320, 3), "DNN Inference Time: 15320 us - Detected: 3");
    assert_eq!(summary_text(0, 0), "DNN Inference Time: 0 us - Detected: 0");
}

#[test]
fn class_colors_cycle() {
    let green = Color { blue: 0, green: 255, red: 0, alpha: -1 };
    assert_eq!(class_color(0), green);
    assert_eq!(class_color(1), Color { blue: 255, green: 255, red: 0, alpha: -1 });
    assert_eq!(class_color(2), Color { blue: 0, green: 255, red: 255, alpha: -1 });
    assert_eq!(class_color(3), Color { blue: 255, green: 0, red: 0, alpha: -1 });
    assert_eq!(class_color(4), green);
    assert_eq!(class_color(7), class_color(3));
}

#[test]
fn label_and_banner_geometry() {
    let r = Rect { x: 12, y: 40, width: 30, height: 20 };
    assert_eq!(label_origin(r, 6), Point { x: 12, y: 29 });
    let text = Size { width: 300, height: 14 };
    assert_eq!(banner_rect(text), Rect { x: 0, y: 0, width: 300, height: 24 });
    assert_eq!(banner_text_origin(text), Point { x: 0, y: 19 });
}

#[test]
fn detections_in_class_order() {
    let a = Rect { x: 0, y: 0, width: 1, height: 1 };
    let b = Rect { x: 5, y: 5, width: 2, height: 2 };
    let c = Rect { x: 9, y: 9, width: 3, height: 3 };
    let boxes = vec![vec![a, b], vec![], vec![c]];
    let kept = vec![vec![1, 0], vec![], vec![0]];
    let d = detections(&boxes, &kept);
    assert_eq!(
        d,
        vec![
            Detection { class: 0, index: 1, rect: b, color: class_color(0) },
            Detection { class: 0, index: 0, rect: a, color: class_color(0) },
            Detection { class: 2, index: 0, rect: c, color: class_color(2) },
        ]
    );
    let none = detections(&vec![vec![a]], &vec![vec![]]);
    assert!(none.is_empty());
}
