use nucleo_stm32g071rb::clock::{
    sample_period_micros, SampleClock, HALF_BIT_MICROS, SAMPLES_PER_HALF_BIT,
};
use nucleo_stm32g071rb::codec::{ActivityLevel, BitOrder, SyncOnTurningEdge};
use nucleo_stm32g071rb::receive::{service_receive_tick, ReceivePipeline, Reception};
use nucleo_stm32g071rb::slot::SharedSlot;
use nucleo_stm32g071rb::transmit::{
    service_transmit_tick, TransmitJob, TransmitSlot, TransmitStep,
};

#[test]
fn decoder_tick_is_a_third_of_a_half_bit() {
    assert_eq!(sample_period_micros(HALF_BIT_MICROS, SAMPLES_PER_HALF_BIT), Some(296));
}

#[test]
fn encoder_tick_is_a_half_bit() {
    assert_eq!(sample_period_micros(889, 1), Some(889));
}

#[test]
fn period_rounds_down() {
    assert_eq!(sample_period_micros(889, 4), Some(222));
    assert_eq!(sample_period_micros(2, 3), Some(0));
}

#[test]
fn no_samples_no_period() {
    assert_eq!(sample_period_micros(889, 0), None);
}

#[test]
fn clock_is_made_with_nothing_pending() {
    let clock = SampleClock::new(889, 3).unwrap();
    assert_eq!(clock.period_micros(), 296);
    assert!(!clock.is_pending());
    assert_eq!(SampleClock::new(889, 0), None);
}

#[test]
fn firing_stays_pending_until_acknowledged() {
    let mut clock = SampleClock::new(889, 1).unwrap();
    clock.fire();
    assert!(clock.is_pending());
    clock.fire();
    assert!(clock.is_pending());
    clock.acknowledge();
    assert!(!clock.is_pending());
    clock.acknowledge();
    assert!(!clock.is_pending());
    assert_eq!(clock.period_micros(), 889);
}

#[test]
fn handler_acknowledges_every_firing() {
    let mut clock: SharedSlot<SampleClock> = SharedSlot::new();
    clock.replace(SampleClock::new(889, 3));
    let mut line: SharedSlot<bool> = SharedSlot::new();
    line.replace(Some(true));
    let mut pipeline =
        ReceivePipeline::new(ActivityLevel::Low, SyncOnTurningEdge::First, BitOrder::BigEndian);
    for _ in 0..5 {
        clock.with_mut(|clock: &mut SampleClock| clock.fire());
        let reception = service_receive_tick(
            &mut clock,
            &mut line,
            &mut pipeline,
            &mut (),
            |clock: &mut SampleClock, _: &mut ()| clock.acknowledge(),
            |level: &mut bool, _: &mut ()| *level,
        );
        assert_eq!(reception, Reception::Quiet);
        assert_eq!(clock.with_mut(|clock: &mut SampleClock| clock.is_pending()), Some(false));
    }
}

#[test]
fn tick_on_empty_clock_slot_changes_nothing() {
    let mut clock: SharedSlot<SampleClock> = SharedSlot::new();
    let mut line: SharedSlot<bool> = SharedSlot::new();
    let mut actuator: SharedSlot<Vec<bool>> = SharedSlot::new();
    let mut pipeline =
        ReceivePipeline::new(ActivityLevel::Low, SyncOnTurningEdge::First, BitOrder::BigEndian);
    let mut job = TransmitSlot::new();
    for _ in 0..3 {
        let reception = service_receive_tick(
            &mut clock,
            &mut line,
            &mut pipeline,
            &mut (),
            |clock: &mut SampleClock, _: &mut ()| clock.acknowledge(),
            |level: &mut bool, _: &mut ()| *level,
        );
        assert_eq!(reception, Reception::Quiet);
        let step = service_transmit_tick(
            &mut clock,
            &mut actuator,
            &mut job,
            &mut (),
            |clock: &mut SampleClock, _: &mut ()| clock.acknowledge(),
            |log: &mut Vec<bool>, _: &mut (), _: &TransmitSlot, level: bool| log.push(level),
        );
        assert_eq!(step, TransmitStep::Idle);
        assert!(clock.is_empty());
        assert!(line.is_empty());
        assert!(actuator.is_empty());
        assert!(job.is_idle());
    }
    // The other slots take their content as if no tick had been.
    line.replace(Some(true));
    actuator.replace(Some(Vec::new()));
    assert!(job.inject(TransmitJob::from_levels(vec![true])).is_ok());
    let step = service_transmit_tick(
        &mut clock,
        &mut actuator,
        &mut job,
        &mut (),
        |clock: &mut SampleClock, _: &mut ()| clock.acknowledge(),
        |log: &mut Vec<bool>, _: &mut (), _: &TransmitSlot, level: bool| log.push(level),
    );
    assert_eq!(step, TransmitStep::Drive(true));
    assert!(clock.is_empty());
    assert_eq!(actuator.take(), Some(vec![true]));
}
