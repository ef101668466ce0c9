use engine_bridge::custom_output::{get_debug, output_debug, DebugOutput, DebugReply, BACKLOG_LIMIT};

const OVERFLOW: &str = "-- Overflow: Some elements have been removed --";

fn take(output: &mut DebugOutput<u32>, resolver: u32) -> Option<String> {
    match get_debug(output, resolver) {
        DebugReply::Ready { resolver: back, message } => {
            assert_eq!(back, resolver);
            Some(message)
        }
        DebugReply::Registered { .. } => None,
    }
}

#[test]
fn new_channel_is_empty() {
    let output: DebugOutput<u32> = DebugOutput::new();
    assert_eq!(output.backlog_len(), 0);
    assert!(!output.is_waiting());
}

#[test]
fn queued_messages_leave_in_the_order_they_came() {
    let mut output: DebugOutput<u32> = DebugOutput::new();
    assert_eq!(output_debug(&mut output, String::from("m1")), None);
    assert_eq!(output_debug(&mut output, String::from("m2")), None);
    assert_eq!(output_debug(&mut output, String::from("m3")), None);
    assert_eq!(output.backlog_len(), 3);
    assert_eq!(take(&mut output, 1), Some(String::from("m1")));
    assert_eq!(take(&mut output, 2), Some(String::from("m2")));
    assert_eq!(take(&mut output, 3), Some(String::from("m3")));
    assert!(!output.is_waiting());
    assert_eq!(take(&mut output, 4), None);
    assert!(output.is_waiting());
    assert_eq!(output.backlog_len(), 0);
}

#[test]
fn waiting_consumer_gets_the_next_message() {
    let mut output: DebugOutput<u32> = DebugOutput::new();
    match get_debug(&mut output, 11) {
        DebugReply::Registered { displaced } => assert_eq!(displaced, None),
        DebugReply::Ready { .. } => panic!("nothing was queued"),
    }
    assert!(output.is_waiting());
    assert_eq!(
        output_debug(&mut output, String::from("hello")),
        Some((11, String::from("hello")))
    );
    assert!(!output.is_waiting());
    assert_eq!(output.backlog_len(), 0);
    assert_eq!(output_debug(&mut output, String::from("later")), None);
    assert_eq!(output.backlog_len(), 1);
}

#[test]
fn second_registration_displaces_the_first() {
    let mut output: DebugOutput<u32> = DebugOutput::new();
    assert_eq!(take(&mut output, 1), None);
    match get_debug(&mut output, 2) {
        DebugReply::Registered { displaced } => assert_eq!(displaced, Some(1)),
        DebugReply::Ready { .. } => panic!("nothing was queued"),
    }
    assert_eq!(
        output_debug(&mut output, String::from("x")),
        Some((2, String::from("x")))
    );
}

#[test]
fn backlog_fills_up_to_its_limit() {
    let mut output: DebugOutput<u32> = DebugOutput::new();
    assert_eq!(BACKLOG_LIMIT, 100);
    for i in 1..=100 {
        assert_eq!(output_debug(&mut output, format!("m{i}")), None);
        assert_eq!(output.backlog_len(), i);
    }
    for i in 1..=100 {
        assert_eq!(take(&mut output, 0), Some(format!("m{i}")));
    }
    assert_eq!(take(&mut output, 0), None);
}

#[test]
fn message_beyond_the_limit_pushes_out_the_oldest() {
    let mut output: DebugOutput<u32> = DebugOutput::new();
    for i in 1..=100 {
        assert_eq!(output_debug(&mut output, format!("m{i}")), None);
    }
    assert_eq!(output.backlog_len(), 100);
    assert_eq!(output_debug(&mut output, String::from("m101")), None);
    assert_eq!(output.backlog_len(), 100);
    let mut taken = Vec::new();
    while let Some(message) = take(&mut output, 0) {
        taken.push(message);
    }
    assert_eq!(taken.len(), 100);
    assert_eq!(taken[0], OVERFLOW);
    assert!(!taken.contains(&String::from("m1")));
    assert!(!taken.contains(&String::from("m2")));
    for i in 3..=101 {
        assert_eq!(taken[i - 2], format!("m{i}"));
    }
}

#[test]
fn backlog_never_exceeds_its_limit() {
    let mut output: DebugOutput<u32> = DebugOutput::new();
    for i in 1..=350usize {
        assert_eq!(output_debug(&mut output, format!("m{i}")), None);
        assert!(output.backlog_len() <= 100);
        assert_eq!(output.backlog_len(), i.min(100));
    }
    assert_eq!(take(&mut output, 0), Some(String::from(OVERFLOW)));
    assert_eq!(take(&mut output, 0), Some(String::from("m252")));
    assert_eq!(output.backlog_len(), 98);
}

#[test]
fn overflow_text_is_pushed_out_in_its_turn() {
    let mut output: DebugOutput<u32> = DebugOutput::new();
    for i in 1..=102 {
        assert_eq!(output_debug(&mut output, format!("m{i}")), None);
    }
    let mut taken = Vec::new();
    while let Some(message) = take(&mut output, 0) {
        taken.push(message);
    }
    assert_eq!(taken.len(), 100);
    assert_eq!(taken[0], OVERFLOW);
    assert_eq!(taken[1], "m4");
    assert_eq!(taken[99], "m102");
    assert_eq!(taken.iter().filter(|message| *message == OVERFLOW).count(), 1);
}
