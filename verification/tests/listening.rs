use openbci::drive::{ActuatorLineSet, DriveCommand, HardwareFault, Line};
use openbci::listener::{accept_command, force_stop, react, Event, Reaction, WatchdogClock};
use openbci::listener::{LISTEN_PORT, POLL_INTERVAL_MILLIS, TIMEOUT_MILLIS};
use openbci::motors::MotorPins;
use rosc::{OscBundle, OscMessage, OscPacket, OscTime, OscType};

fn datagram(addr: &str, args: Vec<OscType>) -> Event {
    let packet = OscPacket::Message(OscMessage { addr: addr.to_string(), args });
    Event::Datagram(rosc::encoder::encode(&packet).unwrap())
}

fn prediction_event(right: f32, left: f32) -> Event {
    datagram("/neuropype", vec![OscType::Float(right), OscType::Float(left)])
}

fn stopped() -> ActuatorLineSet {
    DriveCommand::Stop.line_pattern()
}

/// Carries out a reaction on hardware that never fails.
fn carry_out(reaction: Reaction, motors: &mut MotorPins, clock: &mut WatchdogClock, now: u64) {
    match reaction {
        Reaction::Drive(commands) => {
            for command in commands {
                accept_command(motors, clock, command, None, now).unwrap();
            }
        }
        Reaction::ForceStop => force_stop(motors, None),
        Reaction::Undecodable(_) | Reaction::Nothing => {}
    }
}

#[test]
fn named_constants() {
    assert_eq!(LISTEN_PORT, 9002);
    assert_eq!(TIMEOUT_MILLIS, 5000);
    assert_eq!(POLL_INTERVAL_MILLIS, 100);
}

#[test]
fn clock_measures_silence() {
    let mut clock = WatchdogClock::new(1_000);
    assert_eq!(clock.last_accepted(), 1_000);
    assert_eq!(clock.elapsed(1_000), 0);
    assert_eq!(clock.elapsed(6_000), 5_000);
    assert_eq!(clock.elapsed(999), 0);
    assert_eq!(clock.elapsed(u64::MAX), u64::MAX - 1_000);
    clock.record(6_500);
    assert_eq!(clock.last_accepted(), 6_500);
    assert_eq!(clock.elapsed(6_600), 100);
}

#[test]
fn watchdog_expires_only_after_more_than_the_timeout() {
    let clock = WatchdogClock::new(1_000);
    assert!(!clock.expired(1_000));
    assert!(!clock.expired(5_999));
    assert!(!clock.expired(6_000));
    assert!(clock.expired(6_001));
    assert!(clock.expired(6_100));
    assert!(clock.expired(u64::MAX));
    assert!(!clock.expired(0));
    let late = WatchdogClock::new(u64::MAX - 10);
    assert!(!late.expired(u64::MAX));
}

#[test]
fn end_to_end_line_patterns() {
    let mut motors = MotorPins::new();
    let mut clock = WatchdogClock::new(0);
    let reaction = react(&clock, &prediction_event(0.0, 0.9), 10);
    carry_out(reaction, &mut motors, &mut clock, 10);
    assert_eq!(motors.lines(), DriveCommand::TurnLeft.line_pattern());
    assert_eq!(clock.last_accepted(), 10);

    let reaction = react(&clock, &prediction_event(0.8, 0.1), 20);
    carry_out(reaction, &mut motors, &mut clock, 20);
    assert_eq!(motors.lines(), DriveCommand::TurnRight.line_pattern());
    assert_eq!(clock.last_accepted(), 20);

    let reaction = react(&clock, &prediction_event(0.3, 0.2), 30);
    carry_out(reaction, &mut motors, &mut clock, 30);
    assert_eq!(motors.lines(), stopped());
    assert_eq!(clock.last_accepted(), 30);
}

#[test]
fn unrelated_traffic_changes_neither_lines_nor_clock() {
    let mut motors = MotorPins::new();
    let mut clock = WatchdogClock::new(0);
    carry_out(react(&clock, &prediction_event(0.0, 0.9), 10), &mut motors, &mut clock, 10);
    let lines = motors.lines();

    let unrelated = datagram("/muse/eeg", vec![OscType::Float(0.9), OscType::Float(0.0)]);
    let reaction = react(&clock, &unrelated, 50);
    assert!(matches!(&reaction, Reaction::Drive(commands) if commands.is_empty()));
    carry_out(reaction, &mut motors, &mut clock, 50);
    assert_eq!(motors.lines(), lines);
    assert_eq!(clock.last_accepted(), 10);

    let short = datagram("/neuropype", vec![OscType::Float(0.9)]);
    let reaction = react(&clock, &short, 60);
    assert!(matches!(&reaction, Reaction::Drive(commands) if commands.is_empty()));
    carry_out(reaction, &mut motors, &mut clock, 60);
    assert_eq!(motors.lines(), lines);
    assert_eq!(clock.last_accepted(), 10);

    let not_a_number = datagram("/neuropype", vec![OscType::Float(0.9), OscType::Int(1)]);
    carry_out(react(&clock, &not_a_number, 70), &mut motors, &mut clock, 70);
    assert_eq!(motors.lines(), lines);
    assert_eq!(clock.last_accepted(), 10);
}

#[test]
fn bundle_applies_exactly_one_result() {
    let bundle = OscPacket::Bundle(OscBundle {
        timetag: OscTime { seconds: 0, fractional: 1 },
        content: vec![
            OscPacket::Message(OscMessage {
                addr: "/neuropype".to_string(),
                args: vec![OscType::Float(0.8), OscType::Float(0.1)],
            }),
            OscPacket::Message(OscMessage {
                addr: "/status".to_string(),
                args: vec![OscType::Float(0.0), OscType::Float(0.9)],
            }),
        ],
    });
    let event = Event::Datagram(rosc::encoder::encode(&bundle).unwrap());
    let mut motors = MotorPins::new();
    let mut clock = WatchdogClock::new(0);
    let reaction = react(&clock, &event, 40);
    match &reaction {
        Reaction::Drive(commands) => assert_eq!(commands, &vec![DriveCommand::TurnRight]),
        other => panic!("unexpected reaction {:?}", other),
    }
    carry_out(reaction, &mut motors, &mut clock, 40);
    assert_eq!(motors.lines(), DriveCommand::TurnRight.line_pattern());
    assert_eq!(clock.last_accepted(), 40);
}

#[test]
fn undecodable_datagram_is_reported_and_changes_nothing() {
    let mut motors = MotorPins::new();
    let mut clock = WatchdogClock::new(0);
    carry_out(react(&clock, &prediction_event(0.0, 0.9), 10), &mut motors, &mut clock, 10);
    let reaction = react(&clock, &Event::Datagram(vec![0xde, 0xad, 0xbe, 0xef, 0x01]), 20);
    match &reaction {
        Reaction::Undecodable(fault) => assert!(!fault.reason.is_empty()),
        other => panic!("unexpected reaction {:?}", other),
    }
    carry_out(reaction, &mut motors, &mut clock, 20);
    assert_eq!(motors.lines(), DriveCommand::TurnLeft.line_pattern());
    assert_eq!(clock.last_accepted(), 10);
}

#[test]
fn receive_fault_changes_nothing() {
    let clock = WatchdogClock::new(0);
    assert!(matches!(react(&clock, &Event::ReceiveFault, 1), Reaction::Nothing));
    assert!(matches!(react(&clock, &Event::ReceiveFault, 1_000_000), Reaction::Nothing));
}

#[test]
fn watchdog_stops_the_robot_after_silence() {
    let mut motors = MotorPins::new();
    let mut clock = WatchdogClock::new(0);
    carry_out(react(&clock, &prediction_event(0.0, 0.9), 1_000), &mut motors, &mut clock, 1_000);
    assert_eq!(motors.lines(), DriveCommand::TurnLeft.line_pattern());

    // timeout ticks every poll interval
    let mut now = 1_000;
    let mut stopped_at = None;
    while now <= 7_000 {
        now += POLL_INTERVAL_MILLIS;
        let reaction = react(&clock, &Event::Timeout, now);
        let fires = matches!(reaction, Reaction::ForceStop);
        carry_out(reaction, &mut motors, &mut clock, now);
        if fires && stopped_at.is_none() {
            stopped_at = Some(now);
        }
        if stopped_at.is_none() {
            assert_eq!(motors.lines(), DriveCommand::TurnLeft.line_pattern());
        } else {
            assert_eq!(motors.lines(), stopped());
        }
    }
    assert_eq!(stopped_at, Some(1_000 + TIMEOUT_MILLIS + POLL_INTERVAL_MILLIS));
    // the watchdog never touches the clock
    assert_eq!(clock.last_accepted(), 1_000);
}

#[test]
fn watchdog_tick_at_exactly_the_timeout_does_not_fire() {
    let clock = WatchdogClock::new(2_000);
    assert!(matches!(react(&clock, &Event::Timeout, 2_000 + TIMEOUT_MILLIS), Reaction::Nothing));
    assert!(matches!(react(&clock, &Event::Timeout, 2_001 + TIMEOUT_MILLIS), Reaction::ForceStop));
}

#[test]
fn watchdog_keeps_firing_while_silence_lasts() {
    let mut motors = MotorPins::new();
    let mut clock = WatchdogClock::new(0);
    for tick in [5_001u64, 5_101, 5_201, 60_000] {
        let reaction = react(&clock, &Event::Timeout, tick);
        assert!(matches!(reaction, Reaction::ForceStop));
        carry_out(reaction, &mut motors, &mut clock, tick);
        assert_eq!(motors.lines(), stopped());
    }
}

#[test]
fn accepted_command_restarts_the_watchdog() {
    let mut motors = MotorPins::new();
    let mut clock = WatchdogClock::new(0);
    carry_out(react(&clock, &prediction_event(0.8, 0.1), 4_900), &mut motors, &mut clock, 4_900);
    assert!(matches!(react(&clock, &Event::Timeout, 5_100), Reaction::Nothing));
    assert!(matches!(react(&clock, &Event::Timeout, 9_900), Reaction::Nothing));
    assert!(matches!(react(&clock, &Event::Timeout, 9_901), Reaction::ForceStop));
}

#[test]
fn failed_application_is_reported_and_leaves_the_clock() {
    let mut motors = MotorPins::new();
    let mut clock = WatchdogClock::new(5);
    let result =
        accept_command(&mut motors, &mut clock, DriveCommand::TurnLeft, Some(Line::RightForward), 900);
    assert_eq!(result, Err(HardwareFault { line: Line::RightForward }));
    assert_eq!(clock.last_accepted(), 5);
    // the enables were raised and two lines lowered before the fault
    assert!(motors.lines().left_enable && motors.lines().right_enable);
    assert!(!motors.lines().right_forward);

    // the loop goes on: the next command is applied as usual
    let result = accept_command(&mut motors, &mut clock, DriveCommand::TurnRight, None, 950);
    assert_eq!(result, Ok(()));
    assert_eq!(motors.lines(), DriveCommand::TurnRight.line_pattern());
    assert_eq!(clock.last_accepted(), 950);
}

#[test]
fn fault_while_forcing_stop_is_swallowed() {
    let mut motors = MotorPins::new();
    motors.forward(None).unwrap();
    force_stop(&mut motors, Some(Line::LeftForward));
    // the enables were lowered before the fault, the direction lines were not
    let lines = motors.lines();
    assert!(!lines.left_enable && !lines.right_enable);
    assert!(lines.left_forward && lines.right_forward);
    force_stop(&mut motors, None);
    assert_eq!(motors.lines(), stopped());
    force_stop(&mut motors, None);
    assert_eq!(motors.lines(), stopped());
}
