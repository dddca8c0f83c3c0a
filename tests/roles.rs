use playback::pump::pump;
use playback::stock::{Recorder, Refuser, StepSource};
use playback::{Destination, PlaybackErr, Sample, Source};

// sources emit samples and destinations receive them
#[test]
fn test_source_destination_round_trip() {
    let mut src = StepSource::new(0, 1);
    let mut dest = Recorder::new();
    for _ in 0..10 {
        dest.play(src.sample()).expect("no playback error");
    }
    let mut want: Sample = 0;
    for got in dest.samples {
        assert_eq!(got, want);
        want += 1;
    }
}

// destinations hand back errors when they refuse a sample
#[test]
fn test_playback_err_errors() {
    let mut src = StepSource::new(0, 1);
    let mut dest = Refuser::new("boom");
    for _ in 0..10 {
        match dest.play(src.sample()) {
            Err(pe) => assert_eq!(pe.msg, "boom"),
            _ => panic!("expected playback error"),
        }
    }
}

#[test]
fn pump_into_recorder_gives_the_ramp() {
    let mut src = StepSource::new(0, 1);
    let mut dest = Recorder::new();
    let outcomes = pump(&mut src, &mut dest, 10);
    assert_eq!(outcomes.len(), 10);
    assert!(outcomes.iter().all(|r| r.is_ok()));
    assert_eq!(dest.samples, vec![0, 1, 2, 3, 4, 5, 6, 7, 8, 9]);
    assert_eq!(src.next, 10);
}

#[test]
fn pump_with_step_and_offset() {
    let mut src = StepSource::new(-6, 3);
    let mut dest = Recorder::new();
    let outcomes = pump(&mut src, &mut dest, 5);
    assert_eq!(outcomes.len(), 5);
    assert_eq!(dest.samples, vec![-6, -3, 0, 3, 6]);
}

#[test]
fn recorder_keeps_what_it_held() {
    let mut src = StepSource::new(100, -50);
    let mut dest = Recorder::new();
    pump(&mut src, &mut dest, 2);
    pump(&mut src, &mut dest, 3);
    assert_eq!(dest.samples, vec![100, 50, 0, -50, -100]);
}

#[test]
fn pump_into_refuser_fails_every_round() {
    let mut src = StepSource::new(0, 1);
    let mut dest = Refuser::new("boom");
    let outcomes = pump(&mut src, &mut dest, 10);
    assert_eq!(outcomes.len(), 10);
    for r in outcomes {
        match r {
            Err(pe) => assert_eq!(pe.msg, "boom"),
            Ok(()) => panic!("expected playback error"),
        }
    }
    assert_eq!(dest.msg, "boom");
    assert_eq!(src.next, 10);
}

#[test]
fn no_rounds_move_nothing() {
    let mut src = StepSource::new(7, 2);
    let mut dest = Recorder::new();
    let outcomes = pump(&mut src, &mut dest, 0);
    assert!(outcomes.is_empty());
    assert!(dest.samples.is_empty());
    assert_eq!(src.next, 7);

    let mut bad = Refuser::new("boom");
    assert!(pump(&mut src, &mut bad, 0).is_empty());
}

#[test]
fn playback_err_keeps_its_message() {
    assert_eq!(PlaybackErr::new("boom").msg, "boom");
    assert_eq!(PlaybackErr::new("").msg, "");
    assert_eq!(PlaybackErr::new("device busy: ünïcode").msg, "device busy: ünïcode");
}

#[test]
fn step_source_stops_at_the_top() {
    let mut src = StepSource::new(i16::MAX - 1, 1);
    assert_eq!(src.sample(), i16::MAX - 1);
    assert_eq!(src.sample(), i16::MAX);
    assert_eq!(src.sample(), i16::MAX);
    assert_eq!(src.step, 1);
}

#[test]
fn step_source_stops_at_the_bottom() {
    let mut src = StepSource::new(i16::MIN + 5, -4);
    assert_eq!(src.sample(), i16::MIN + 5);
    assert_eq!(src.sample(), i16::MIN + 1);
    assert_eq!(src.sample(), i16::MIN);
    assert_eq!(src.sample(), i16::MIN);
}

#[test]
fn refuser_with_empty_message() {
    let mut dest = Refuser::new("");
    match dest.play(3) {
        Err(pe) => assert_eq!(pe.msg, ""),
        Ok(()) => panic!("expected playback error"),
    }
}

#[test]
fn recorder_starts_empty() {
    let dest = Recorder::new();
    assert!(dest.samples.is_empty());
}
