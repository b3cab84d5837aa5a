use afl::corpus::{Corpus, Testcase};
use afl::events::{AflError, BrokerEventResult, Event};
use afl::manager::{EventManager, LoggerEventManager};
use afl::sink::{format_log_line, push_decimal, TextSink};

fn all_variants() -> Vec<Event> {
    vec![
        Event::LoadInitial { sender_id: 1 },
        Event::NewTestcase { sender_id: 1, testcase: Testcase::new(vec![1, 2, 3]) },
        Event::UpdateStats { sender_id: 1, new_execs: 10 },
        Event::Crash { sender_id: 1, input: vec![4] },
        Event::Timeout { sender_id: 1, input: vec![5] },
        Event::Log { sender_id: 1, severity_level: 2, message: String::from("m") },
        Event::Noop,
    ]
}

#[test]
fn names_of_each_variant() {
    let names: Vec<&str> = all_variants().iter().map(|e| e.name()).collect();
    assert_eq!(
        names,
        vec!["Initial", "New Testcase", "Stats", "Crash", "Timeout", "Log", "None"]
    );
}

#[test]
fn names_are_non_empty_and_distinct() {
    let events = all_variants();
    for (i, a) in events.iter().enumerate() {
        assert!(!a.name().is_empty());
        for (j, b) in events.iter().enumerate() {
            assert_eq!(i == j, a.name() == b.name());
        }
    }
}

#[test]
fn new_testcase_then_log() {
    let mut corpus = Corpus::new();
    let mut manager = LoggerEventManager::new(TextSink::new());
    let mut state = ();
    assert!(manager
        .fire(Event::NewTestcase { sender_id: 1, testcase: Testcase::new(vec![7, 7]) })
        .is_ok());
    assert!(manager
        .fire(Event::Log { sender_id: 1, severity_level: 3, message: String::from("ok") })
        .is_ok());
    assert!(matches!(manager.process(&mut state, &mut corpus), Ok(2)));
    assert_eq!(corpus.count(), 1);
    assert_eq!(corpus.get(0).input, vec![7, 7]);
    assert_eq!(manager.writer().len(), 1);
    assert!(manager.writer().line(0).ends_with("ok"));
    assert_eq!(manager.writer().line(0), "1[3]: ok");
}

#[test]
fn crash_leaves_corpus_and_sink_alone() {
    let mut corpus = Corpus::new();
    let mut manager = LoggerEventManager::new(TextSink::new());
    let mut state = ();
    assert!(manager.fire(Event::Crash { sender_id: 2, input: vec![1, 2] }).is_ok());
    assert!(matches!(manager.process(&mut state, &mut corpus), Ok(1)));
    assert_eq!(corpus.count(), 0);
    assert_eq!(manager.writer().len(), 0);
}

#[test]
fn process_with_nothing_fired() {
    let mut corpus = Corpus::new();
    let mut manager = LoggerEventManager::new(TextSink::new());
    let mut state = ();
    assert!(matches!(manager.process(&mut state, &mut corpus), Ok(0)));
    assert_eq!(corpus.count(), 0);
    assert_eq!(manager.writer().len(), 0);
}

#[test]
fn process_drains_the_queue() {
    let mut corpus = Corpus::new();
    let mut manager = LoggerEventManager::new(TextSink::new());
    let mut state = ();
    for e in all_variants() {
        assert!(manager.fire(e).is_ok());
    }
    assert_eq!(manager.pending_count(), 7);
    assert!(matches!(manager.process(&mut state, &mut corpus), Ok(7)));
    assert_eq!(manager.pending_count(), 0);
    assert!(matches!(manager.process(&mut state, &mut corpus), Ok(0)));
    assert_eq!(corpus.count(), 1);
    assert_eq!(manager.writer().len(), 1);
}

#[test]
fn effects_keep_fire_order() {
    let mut corpus = Corpus::new();
    let mut manager = LoggerEventManager::new(TextSink::new());
    let mut state = ();
    let _ = manager.fire(Event::NewTestcase { sender_id: 1, testcase: Testcase::new(vec![1]) });
    let _ = manager.fire(Event::Log { sender_id: 4, severity_level: 0, message: String::from("a") });
    let _ = manager.fire(Event::NewTestcase { sender_id: 2, testcase: Testcase::new(vec![2]) });
    let _ = manager.fire(Event::Log { sender_id: 5, severity_level: 9, message: String::from("b") });
    assert!(matches!(manager.process(&mut state, &mut corpus), Ok(4)));
    assert_eq!(corpus.count(), 2);
    assert_eq!(corpus.get(0).input, vec![1]);
    assert_eq!(corpus.get(1).input, vec![2]);
    assert_eq!(manager.writer().line(0), "4[0]: a");
    assert_eq!(manager.writer().line(1), "5[9]: b");
}

#[test]
fn duplicate_testcases_are_both_added() {
    let mut corpus = Corpus::new();
    let mut manager = LoggerEventManager::new(TextSink::new());
    let mut state = ();
    let _ = manager.fire(Event::NewTestcase { sender_id: 1, testcase: Testcase::new(vec![3]) });
    let _ = manager.fire(Event::NewTestcase { sender_id: 2, testcase: Testcase::new(vec![3]) });
    assert!(matches!(manager.process(&mut state, &mut corpus), Ok(2)));
    assert_eq!(corpus.count(), 2);
}

#[test]
fn only_new_testcase_is_forwarded() {
    let mut corpus = Corpus::new();
    let mut sink = TextSink::new();
    let mut state = ();
    for e in all_variants() {
        let r = e.handle_in_broker(&mut state, &mut corpus, &mut sink);
        match e {
            Event::NewTestcase { .. } => assert!(matches!(r, Ok(BrokerEventResult::Forward))),
            _ => assert!(matches!(r, Ok(BrokerEventResult::Handled))),
        }
    }
    assert_eq!(corpus.count(), 0);
    assert_eq!(sink.len(), 1);
    assert_eq!(sink.line(0), "1[2]: m");
}

#[test]
fn client_step_refuses_other_variants() {
    let mut corpus = Corpus::new();
    let mut state = ();
    for e in all_variants() {
        let r = e.handle_in_client(&mut state, &mut corpus);
        match e {
            Event::NewTestcase { .. } => assert!(r.is_ok()),
            _ => assert!(matches!(r, Err(AflError::IllegalMessage))),
        }
    }
    assert_eq!(corpus.count(), 1);
    assert_eq!(corpus.get(0).input, vec![1, 2, 3]);
}

#[test]
fn log_line_format() {
    assert_eq!(format_log_line(12, 3, &String::from("hi")), "12[3]: hi");
    assert_eq!(format_log_line(0, 255, &String::new()), "0[255]: ");
    assert_eq!(
        format_log_line(u64::MAX, 0, &String::from("x y")),
        "18446744073709551615[0]: x y"
    );
}

#[test]
fn decimal_digits() {
    let mut s = String::from("n=");
    push_decimal(&mut s, 0);
    assert_eq!(s, "n=0");
    let mut t = String::new();
    push_decimal(&mut t, 1090);
    assert_eq!(t, "1090");
}

#[test]
fn duplicate_copies_bytes() {
    let t = Testcase::new(vec![9, 8, 7]);
    let d = t.duplicate();
    assert_eq!(d.input, vec![9, 8, 7]);
    assert_eq!(Testcase::new(vec![]).duplicate().input, Vec::<u8>::new());
}

#[test]
fn channel_is_enabled_and_on_recv_is_a_no_op() {
    let mut corpus = Corpus::new();
    let manager = LoggerEventManager::new(TextSink::new());
    let mut state = ();
    assert!(manager.enabled());
    assert!(manager.on_recv(&mut state, &mut corpus).is_ok());
    assert_eq!(corpus.count(), 0);
}

#[test]
fn sink_given_at_construction_is_kept() {
    let mut sink = TextSink::new();
    sink.write_line(String::from("start"));
    let mut manager = LoggerEventManager::new(sink);
    let mut corpus = Corpus::new();
    let mut state = ();
    let _ = manager.fire(Event::Log { sender_id: 7, severity_level: 1, message: String::from("go") });
    assert!(matches!(manager.process(&mut state, &mut corpus), Ok(1)));
    assert_eq!(manager.writer().len(), 2);
    assert_eq!(manager.writer().line(0), "start");
    assert_eq!(manager.writer().line(1), "7[1]: go");
}

#[test]
fn on_recv_leaves_state_and_corpus() {
    let mut corpus = Corpus::new();
    corpus.add(Testcase::new(vec![4, 2]));
    let manager = LoggerEventManager::new(TextSink::new());
    let mut state = 17u32;
    assert!(manager.on_recv(&mut state, &mut corpus).is_ok());
    assert_eq!(state, 17);
    assert_eq!(corpus.count(), 1);
    assert_eq!(corpus.get(0).input, vec![4, 2]);
}

#[test]
fn process_leaves_state() {
    let mut corpus = Corpus::new();
    let mut manager = LoggerEventManager::new(TextSink::new());
    let mut state = 99u32;
    let _ = manager.fire(Event::NewTestcase { sender_id: 1, testcase: Testcase::new(vec![1]) });
    let _ = manager.fire(Event::Log { sender_id: 1, severity_level: 1, message: String::from("s") });
    assert!(matches!(manager.process(&mut state, &mut corpus), Ok(2)));
    assert_eq!(state, 99);
}

#[test]
fn take_output_hands_each_line_once() {
    let mut corpus = Corpus::new();
    let mut manager = LoggerEventManager::new(TextSink::new());
    let mut state = ();
    let _ = manager.fire(Event::Log { sender_id: 3, severity_level: 2, message: String::from("one") });
    let _ = manager.fire(Event::Crash { sender_id: 3, input: vec![0] });
    assert!(matches!(manager.process(&mut state, &mut corpus), Ok(2)));
    assert_eq!(manager.take_output(), vec![String::from("3[2]: one")]);
    assert_eq!(manager.writer().len(), 0);
    let _ = manager.fire(Event::Log { sender_id: 3, severity_level: 2, message: String::from("two") });
    assert!(matches!(manager.process(&mut state, &mut corpus), Ok(1)));
    assert_eq!(manager.take_output(), vec![String::from("3[2]: two")]);
    assert!(manager.take_output().is_empty());
}

#[test]
fn take_lines_empties_sink() {
    let mut sink = TextSink::new();
    sink.write_line(String::from("a"));
    sink.write_line(String::from("b"));
    assert_eq!(sink.take_lines(), vec![String::from("a"), String::from("b")]);
    assert_eq!(sink.len(), 0);
}
