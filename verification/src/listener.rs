//! The listener's decisions and the safety watchdog.
//!
//! The caller owns the socket, the clock and the hardware. In each receive
//! cycle it hands what the receive call gave to `react`, carries out the
//! reaction, and reports how each operation on the lines went. Times are
//! milliseconds of a monotonic clock.

use vstd::prelude::*;
use crate::drive::{levels_after, DriveCommand, HardwareFault, Line};
use crate::motors::MotorPins;
use crate::osc::packet_commands;
use crate::wire::{commands_in_datagram, osc_decoding, DecodeFault, MAX_DATAGRAM};

verus! {

/// Default port of the receive endpoint.
pub const LISTEN_PORT: u16 = 9002;

/// Silence on the command channel after which the robot is stopped.
pub const TIMEOUT_MILLIS: u64 = 5000;

/// Longest wait of one receive cycle.
pub const POLL_INTERVAL_MILLIS: u64 = 100;

/// Time of the last accepted command.
pub struct WatchdogClock {
    last_accepted: u64,
}

impl View for WatchdogClock {
    type V = u64;

    closed spec fn view(&self) -> u64 {
        self.last_accepted
    }
}

/// Time from `last_accepted` to `now`; zero where `now` is the earlier.
pub open spec fn silence(last_accepted: u64, now: u64) -> int {
    if now >= last_accepted {
        now - last_accepted
    } else {
        0
    }
}

/// Whether the silence at `now` exceeds the timeout.
pub open spec fn timed_out(last_accepted: u64, now: u64) -> bool {
    silence(last_accepted, now) > TIMEOUT_MILLIS
}

impl WatchdogClock {
    /// A clock started at `now`.
    pub fn new(now: u64) -> (clock: WatchdogClock)
        ensures
            clock@ == now,
    {
        WatchdogClock { last_accepted: now }
    }

    /// Time of the last accepted command.
    pub fn last_accepted(&self) -> (time: u64)
        ensures
            time == self@,
    {
        self.last_accepted
    }

    /// Time since the last accepted command.
    pub fn elapsed(&self, now: u64) -> (millis: u64)
        ensures
            millis == silence(self@, now),
    {
        if now >= self.last_accepted {
            now - self.last_accepted
        } else {
            0
        }
    }

    /// Whether the time since the last accepted command exceeds the timeout.
    pub fn expired(&self, now: u64) -> (expired: bool)
        ensures
            expired == timed_out(self@, now),
    {
        self.elapsed(now) > TIMEOUT_MILLIS
    }

    /// Records that a command was accepted at `now`.
    pub fn record(&mut self, now: u64)
        ensures
            final(self)@ == now,
    {
        self.last_accepted = now;
    }
}

/// What one receive cycle gave.
#[derive(Debug)]
pub enum Event {
    /// A datagram arrived.
    Datagram(Vec<u8>),
    /// Nothing arrived within the poll interval.
    Timeout,
    /// The receive call failed otherwise.
    ReceiveFault,
}

/// What the caller is to do after a receive cycle.
#[derive(Debug)]
pub enum Reaction {
    /// Apply these commands in order, each followed by `accept_command`.
    Drive(Vec<DriveCommand>),
    /// Apply `Stop`, followed by `force_stop`.
    ForceStop,
    /// The datagram could not be decoded: report it and go on.
    Undecodable(DecodeFault),
    /// Go on.
    Nothing,
}

/// Decides what follows a receive cycle that ended at `now`.
pub fn react(clock: &WatchdogClock, event: &Event, now: u64) -> (reaction: Reaction)
    requires
        event matches Event::Datagram(datagram) ==> datagram@.len() <= MAX_DATAGRAM,
    ensures
        match event {
            Event::Datagram(datagram) => match osc_decoding(datagram@) {
                Some(content) => reaction matches Reaction::Drive(commands) && commands@
                    == packet_commands(content),
                None => reaction is Undecodable,
            },
            Event::Timeout => if timed_out(clock@, now) {
                reaction is ForceStop
            } else {
                reaction is Nothing
            },
            Event::ReceiveFault => reaction is Nothing,
        },
{
    match event {
        Event::Datagram(datagram) => match commands_in_datagram(datagram.as_slice()) {
            Ok(commands) => Reaction::Drive(commands),
            Err(fault) => Reaction::Undecodable(fault),
        },
        Event::Timeout => if clock.expired(now) {
            Reaction::ForceStop
        } else {
            Reaction::Nothing
        },
        Event::ReceiveFault => Reaction::Nothing,
    }
}

/// Takes note of how a command of the command channel was applied at `now`.
/// The lines change as `MotorPins::apply` says. The clock is set to `now`
/// where every write succeeded, and is left alone where one failed.
pub fn accept_command(
    motors: &mut MotorPins,
    clock: &mut WatchdogClock,
    command: DriveCommand,
    failed: Option<Line>,
    now: u64,
) -> (result: Result<(), HardwareFault>)
    ensures
        final(motors)@ == levels_after(old(motors)@, command.write_plan(), failed),
        match failed {
            None => result is Ok && final(motors)@ == command.pattern() && final(clock)@ == now,
            Some(line) => final(clock)@ == old(clock)@ && result == Err::<(), HardwareFault>(
                HardwareFault { line },
            ),
        },
        old(motors)@.exclusive() ==> final(motors)@.exclusive(),
{
    match motors.apply(command, failed) {
        Ok(()) => {
            clock.record(now);
            Ok(())
        },
        Err(fault) => Err(fault),
    }
}

/// Takes note of how the stop that the watchdog forced went. A fault is not
/// handed on: the attempt is all that is owed.
pub fn force_stop(motors: &mut MotorPins, failed: Option<Line>)
    ensures
        final(motors)@ == levels_after(old(motors)@, DriveCommand::Stop.write_plan(), failed),
        failed is None ==> final(motors)@ == DriveCommand::Stop.pattern(),
        old(motors)@.exclusive() ==> final(motors)@.exclusive(),
{
    let _ = motors.stop(failed);
}

/// The watchdog fires at every timeout tick later than the timeout after the
/// last accepted command, and at none before.
pub proof fn lemma_watchdog_fires(last_accepted: u64, now: u64)
    ensures
        timed_out(last_accepted, now) <==> now > last_accepted + TIMEOUT_MILLIS,
{
}

/// Where timeout ticks follow each other by no more than the poll interval,
/// the first tick at which the watchdog fires is later than the timeout after
/// the last accepted command by no more than one poll interval.
pub proof fn lemma_watchdog_latency(last_accepted: u64, previous_tick: u64, tick: u64)
    requires
        previous_tick <= tick,
        tick - previous_tick <= POLL_INTERVAL_MILLIS,
        !timed_out(last_accepted, previous_tick),
        timed_out(last_accepted, tick),
    ensures
        last_accepted + TIMEOUT_MILLIS < tick <= last_accepted + TIMEOUT_MILLIS
            + POLL_INTERVAL_MILLIS,
{
}

} // verus!
