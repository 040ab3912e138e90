use horfimbor_mono::mono_state::MonoState;
use horfimbor_mono::template_shared::command::{Delay, TemplateCommand};
use horfimbor_mono::template_shared::dto::{record_event, signed_total, start_record};
use horfimbor_mono::template_shared::error::TemplateError;
use horfimbor_mono::template_shared::event::{Delayed, TemplateEvent};
use horfimbor_mono::template_shared::START_VALUE;

fn play(s: &mut MonoState, c: TemplateCommand) -> Option<TemplateError> {
    match s.try_command(c) {
        Ok(evs) => {
            for e in evs {
                s.play_event(&e);
            }
            None
        }
        Err(e) => Some(e),
    }
}

#[test]
fn add_and_reset() {
    let mut s = MonoState::default();
    assert_eq!(s.get_value(), START_VALUE);
    assert_eq!(play(&mut s, TemplateCommand::Add(100)), None);
    assert_eq!(s.get_value(), 1437);
    assert_eq!(s.try_command(TemplateCommand::Add(2000)), Err(TemplateError::CannotAdd(2000)));
    assert_eq!(play(&mut s, TemplateCommand::Add(1563)), None);
    assert_eq!(s.get_value(), 3000);
    assert_eq!(play(&mut s, TemplateCommand::Reset), None);
    assert_eq!(s.get_value(), 0);
    assert_eq!(s.try_command(TemplateCommand::Reset), Err(TemplateError::AlreadyEmpty));
}

#[test]
fn delays() {
    let mut s = MonoState::default();
    let out = TemplateCommand::Delayed(Delay { delay: 11, to_add: 5 });
    assert_eq!(s.try_command(out), Err(TemplateError::DelayOutOfBound(11)));
    let zero = TemplateCommand::Delayed(Delay { delay: 0, to_add: 5 });
    assert_eq!(s.try_command(zero), Err(TemplateError::DelayOutOfBound(0)));
    assert_eq!(play(&mut s, TemplateCommand::Delayed(Delay { delay: 5, to_add: 42 })), None);
    assert_eq!(play(&mut s, TemplateCommand::Delayed(Delay { delay: 3, to_add: 1 })), None);
    assert_eq!(s.delayed().len(), 2);
    assert_eq!(s.get_id(0), 1);
    assert_eq!(s.get_id(1), 2);
    // not due yet
    assert_eq!(s.try_command(TemplateCommand::Finalize(1)), Err(TemplateError::DelayNotFound));
    s.time_pass(10);
    let id = s.get_id(0);
    assert_eq!(play(&mut s, TemplateCommand::Finalize(id)), None);
    assert_eq!(s.get_value(), START_VALUE + 42);
    assert_eq!(s.delayed().len(), 1);
    assert_eq!(s.try_command(TemplateCommand::Finalize(id)), Err(TemplateError::DelayNotFound));
}

#[test]
fn decide_with_clock() {
    let s = MonoState::default();
    assert_eq!(
        s.decide(TemplateCommand::Delayed(Delay { delay: 2, to_add: 9 }), Some(100)),
        Ok(vec![TemplateEvent::Delayed(Delayed { id: 1, timestamp: 100, to_add: 9 })])
    );
    assert_eq!(
        s.decide(TemplateCommand::Delayed(Delay { delay: 2, to_add: 9 }), None),
        Err(TemplateError::CannotCalculateTime)
    );
    let mut s = s;
    s.play_event(&TemplateEvent::Delayed(Delayed { id: 1, timestamp: 100, to_add: 9 }));
    s.play_event(&TemplateEvent::Delayed(Delayed { id: 1, timestamp: 50, to_add: 3 }));
    assert_eq!(
        s.decide(TemplateCommand::Finalize(1), Some(60)),
        Ok(vec![TemplateEvent::DelayDone(1), TemplateEvent::Added(3)])
    );
    assert_eq!(
        s.decide(TemplateCommand::Finalize(1), Some(100)),
        Ok(vec![TemplateEvent::DelayDone(1), TemplateEvent::Added(9)])
    );
    assert_eq!(s.decide(TemplateCommand::Finalize(1), Some(10)), Err(TemplateError::DelayNotFound));
    s.play_event(&TemplateEvent::DelayDone(1));
    assert!(s.delayed().is_empty());
}

#[test]
fn texts() {
    assert_eq!(TemplateEvent::Added(12).text(), "+12");
    assert_eq!(TemplateEvent::Removed(0).text(), "-0");
    assert_eq!(TemplateEvent::Delayed(Delayed { id: 1, timestamp: 2, to_add: 3 }).text(), "~~~");
    assert_eq!(TemplateEvent::DelayDone(1).text(), "~!~");
    assert_eq!(TemplateError::CannotAdd(7).message(), "cannot add 7");
    assert_eq!(TemplateError::DelayOutOfBound(11).message(), "cannot wait 11 seconds");
    assert_eq!(TemplateError::AlreadyEmpty.message(), "cannot empty an empty state");
    assert_eq!(TemplateError::DelayNotFound.message(), "delay not found");
}

#[test]
fn record_keeps_ten() {
    let mut r = start_record();
    assert_eq!(r, vec![('+', START_VALUE)]);
    record_event(&mut r, &TemplateEvent::Removed(37));
    assert_eq!(signed_total(&r), Some(1300));
    for i in 0..12 {
        record_event(&mut r, &TemplateEvent::Added(i));
    }
    record_event(&mut r, &TemplateEvent::DelayDone(3));
    assert_eq!(r.len(), 10);
    assert_eq!(r[9], ('+', 11));
    assert_eq!(r[0], ('+', 2));
    assert_eq!(signed_total(&r), Some((2..12).sum::<isize>()));
    let big = vec![('+', isize::MAX as usize), ('+', 1)];
    assert_eq!(signed_total(&big), None);
}

#[test]
fn delayed_timestamp_reads_clock() {
    let s = MonoState::default();
    let secs = || {
        std::time::SystemTime::now()
            .duration_since(std::time::UNIX_EPOCH)
            .unwrap()
            .as_secs()
    };
    let before = secs();
    let evs = s.try_command(TemplateCommand::Delayed(Delay { delay: 5, to_add: 1 })).unwrap();
    let after = secs();
    assert_eq!(evs.len(), 1);
    match evs[0] {
        TemplateEvent::Delayed(d) => {
            assert_eq!((d.id, d.to_add), (1, 1));
            assert!(before + 5 <= d.timestamp && d.timestamp <= after + 5);
        }
        _ => panic!("expected a delay"),
    }
}

#[test]
fn finalize_removes_one_delay() {
    let mut s = MonoState::default();
    assert_eq!(play(&mut s, TemplateCommand::Delayed(Delay { delay: 1, to_add: 7 })), None);
    assert_eq!(play(&mut s, TemplateCommand::Delayed(Delay { delay: 1, to_add: 8 })), None);
    s.time_pass(5);
    let before = s.delayed().len();
    let id = s.get_id(0);
    assert_eq!(play(&mut s, TemplateCommand::Finalize(id)), None);
    assert_eq!(s.delayed().len(), before - 1);
    assert_eq!(s.get_value(), START_VALUE + 7);
}

#[test]
fn record_shifts_when_full() {
    let mut moves = start_record();
    for n in 1..=9 {
        record_event(&mut moves, &TemplateEvent::Added(n));
    }
    assert_eq!(moves.len(), 10);
    record_event(&mut moves, &TemplateEvent::Removed(4));
    assert_eq!(moves.len(), 10);
    assert_eq!(moves[0], ('+', 1));
    assert_eq!(moves[9], ('-', 4));
    record_event(&mut moves, &TemplateEvent::DelayDone(1));
    assert_eq!(moves.len(), 10);
}

#[test]
fn delay_then_finalize_when_due() {
    let mut s = MonoState::default();
    let evs = s.decide(TemplateCommand::Delayed(Delay { delay: 2, to_add: 9 }), Some(100)).unwrap();
    for e in &evs {
        s.play_event(e);
    }
    assert_eq!(
        s.decide(TemplateCommand::Finalize(1), Some(100)),
        Ok(vec![TemplateEvent::DelayDone(1), TemplateEvent::Added(9)])
    );
    assert_eq!(
        s.decide(TemplateCommand::Finalize(1), Some(150)),
        Ok(vec![TemplateEvent::DelayDone(1), TemplateEvent::Added(9)])
    );
    for e in &s.decide(TemplateCommand::Finalize(1), Some(100)).unwrap() {
        s.play_event(e);
    }
    assert_eq!(s.get_value(), START_VALUE + 9);
    assert!(s.delayed().is_empty());
}
