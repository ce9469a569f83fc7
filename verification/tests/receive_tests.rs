use manchester_code::Datagram;
use nucleo_stm32g071rb::codec::{ActivityLevel, BitOrder, SyncOnTurningEdge};
use nucleo_stm32g071rb::receive::{
    length_filter, service_receive_tick, ReceivePipeline, Reception,
};
use nucleo_stm32g071rb::slot::SharedSlot;

/// `-` is a high sample and `.` a low one.
fn samples(signal: &str) -> Vec<bool> {
    signal.bytes().map(|level| level == b'-').collect()
}

/// One encoded nibble, 1011, with the pauses around it: forty samples.
const NIBBLE: &str = "--------......------...---...-----------";

fn reports(pipeline: &mut ReceivePipeline, signal: &[bool]) -> Vec<(usize, Datagram)> {
    let mut seen = Vec::new();
    for (tick, sample) in signal.iter().enumerate() {
        match pipeline.try_feed(*sample) {
            Reception::Report(datagram) => seen.push((tick, datagram)),
            Reception::Quiet => (),
            Reception::Overrun => panic!("overrun on tick {}", tick),
        }
    }
    seen
}

#[test]
fn forty_samples_of_a_nibble_give_one_report() {
    let signal = samples(NIBBLE);
    assert_eq!(signal.len(), 40);
    let mut pipeline =
        ReceivePipeline::new(ActivityLevel::Low, SyncOnTurningEdge::First, BitOrder::BigEndian);
    let seen = reports(&mut pipeline, &signal);
    assert_eq!(seen, vec![(38, Datagram::new("1011"))]);
}

#[test]
fn two_samples_of_a_nibble_give_no_report() {
    let signal = samples(NIBBLE);
    let mut pipeline =
        ReceivePipeline::new(ActivityLevel::Low, SyncOnTurningEdge::First, BitOrder::BigEndian);
    let seen = reports(&mut pipeline, &signal[..2]);
    assert_eq!(seen, vec![]);
}

#[test]
fn bit_order_of_the_decoder_is_honoured() {
    let signal = samples(NIBBLE);
    let mut pipeline = ReceivePipeline::new(
        ActivityLevel::Low,
        SyncOnTurningEdge::First,
        BitOrder::LittleEndian,
    );
    let seen = reports(&mut pipeline, &signal);
    assert_eq!(seen, vec![(38, Datagram::new("1101"))]);
}

#[test]
fn activity_level_of_the_decoder_is_honoured() {
    let signal: Vec<bool> = samples(NIBBLE).iter().map(|level| !level).collect();
    let mut pipeline =
        ReceivePipeline::new(ActivityLevel::High, SyncOnTurningEdge::First, BitOrder::BigEndian);
    let seen = reports(&mut pipeline, &signal);
    assert_eq!(seen, vec![(38, Datagram::new("0100"))]);
}

#[test]
fn sync_edge_of_the_decoder_is_honoured() {
    let signal = samples("-----...------...---...------------------");
    let mut pipeline =
        ReceivePipeline::new(ActivityLevel::Low, SyncOnTurningEdge::Second, BitOrder::BigEndian);
    let seen = reports(&mut pipeline, &signal);
    assert_eq!(seen, vec![(32, Datagram::new("011"))]);
}

#[test]
fn one_bit_datagram_is_noise() {
    let signal = samples("--------...------------------");
    let mut pipeline =
        ReceivePipeline::new(ActivityLevel::Low, SyncOnTurningEdge::First, BitOrder::BigEndian);
    let seen = reports(&mut pipeline, &signal);
    assert_eq!(seen, vec![]);
}

#[test]
fn pipeline_follows_the_decoder_tick_by_tick() {
    let mut signal = samples(NIBBLE);
    signal.extend(samples("-----...------...---...------------------"));
    signal.extend(samples(NIBBLE));
    let mut decoder = manchester_code::Decoder::new(
        manchester_code::ActivityLevel::Low,
        manchester_code::SyncOnTurningEdge::First,
        manchester_code::BitOrder::BigEndian,
    );
    let mut pipeline =
        ReceivePipeline::new(ActivityLevel::Low, SyncOnTurningEdge::First, BitOrder::BigEndian);
    let mut reported = 0;
    for sample in signal {
        let expected = match decoder.next(sample) {
            Some(datagram) if datagram.len() > 2 => Reception::Report(datagram),
            _ => Reception::Quiet,
        };
        assert!(pipeline.can_feed(sample));
        let report = pipeline.feed(sample);
        let got = match report {
            Some(datagram) => Reception::Report(datagram),
            None => Reception::Quiet,
        };
        assert_eq!(got, expected);
        if got != Reception::Quiet {
            reported += 1;
        }
    }
    assert!(reported >= 2);
}

#[test]
fn length_filter_drops_two_bits_and_keeps_three() {
    assert_eq!(length_filter(None), None);
    assert_eq!(length_filter(Some(Datagram::new(""))), None);
    assert_eq!(length_filter(Some(Datagram::new("1"))), None);
    assert_eq!(length_filter(Some(Datagram::new("10"))), None);
    assert_eq!(length_filter(Some(Datagram::new("101"))), Some(Datagram::new("101")));
    assert_eq!(length_filter(Some(Datagram::new("0000"))), Some(Datagram::new("0000")));
}

struct Line {
    levels: Vec<bool>,
    reads: usize,
}

#[test]
fn every_tick_reads_and_delivers_one_sample() {
    let mut clock: SharedSlot<u32> = SharedSlot::new();
    clock.replace(Some(0));
    let mut line: SharedSlot<Line> = SharedSlot::new();
    line.replace(Some(Line { levels: samples(NIBBLE), reads: 0 }));
    let mut pipeline =
        ReceivePipeline::new(ActivityLevel::Low, SyncOnTurningEdge::First, BitOrder::BigEndian);
    let mut seen = Vec::new();
    for tick in 0..40 {
        let reception = service_receive_tick(
            &mut clock,
            &mut line,
            &mut pipeline,
            &mut (),
            |count: &mut u32, _: &mut ()| *count += 1,
            |line: &mut Line, _: &mut ()| {
                let level = line.levels[line.reads];
                line.reads += 1;
                level
            },
        );
        if let Reception::Report(datagram) = reception {
            seen.push((tick, datagram));
        }
    }
    assert_eq!(clock.take(), Some(40));
    assert_eq!(line.take().unwrap().reads, 40);
    assert_eq!(seen, vec![(38, Datagram::new("1011"))]);
}

#[test]
fn tick_without_line_leaves_the_decoder_alone() {
    let mut clock: SharedSlot<u32> = SharedSlot::new();
    let mut line: SharedSlot<Line> = SharedSlot::new();
    let mut pipeline =
        ReceivePipeline::new(ActivityLevel::Low, SyncOnTurningEdge::First, BitOrder::BigEndian);
    for _ in 0..25 {
        let reception = service_receive_tick(
            &mut clock,
            &mut line,
            &mut pipeline,
            &mut (),
            |count: &mut u32, _: &mut ()| *count += 1,
            |line: &mut Line, _: &mut ()| {
                line.reads += 1;
                false
            },
        );
        assert_eq!(reception, Reception::Quiet);
        assert!(clock.is_empty());
        assert!(line.is_empty());
    }
    assert_eq!(pipeline.service_tick(None), Reception::Quiet);
    let seen = reports(&mut pipeline, &samples(NIBBLE));
    assert_eq!(seen, vec![(38, Datagram::new("1011"))]);
}

#[test]
fn clock_is_acknowledged_before_the_line_is_read() {
    let mut clock: SharedSlot<u32> = SharedSlot::new();
    clock.replace(Some(0));
    let mut line: SharedSlot<bool> = SharedSlot::new();
    line.replace(Some(true));
    let mut pipeline =
        ReceivePipeline::new(ActivityLevel::Low, SyncOnTurningEdge::First, BitOrder::BigEndian);
    let mut order: Vec<&str> = Vec::new();
    service_receive_tick(
        &mut clock,
        &mut line,
        &mut pipeline,
        &mut order,
        |_: &mut u32, order: &mut Vec<&str>| order.push("acknowledge"),
        |level: &mut bool, order: &mut Vec<&str>| {
            order.push("read");
            *level
        },
    );
    assert_eq!(order, vec!["acknowledge", "read"]);
}

#[test]
fn first_two_samples_give_no_report_whatever_they_are() {
    for first in [false, true] {
        for second in [false, true] {
            let mut pipeline = ReceivePipeline::new(
                ActivityLevel::Low,
                SyncOnTurningEdge::First,
                BitOrder::BigEndian,
            );
            assert_eq!(pipeline.try_feed(first), Reception::Quiet);
            assert_eq!(pipeline.try_feed(second), Reception::Quiet);
        }
    }
}

#[test]
fn shortest_datagram_is_reported_on_the_twelfth_tick_at_the_earliest() {
    // Three changes of level record three bits at best, and the pause takes
    // nine samples more.
    let mut pipeline =
        ReceivePipeline::new(ActivityLevel::Low, SyncOnTurningEdge::First, BitOrder::BigEndian);
    let seen = reports(&mut pipeline, &samples(".-.--------"));
    assert_eq!(seen, vec![]);
}

#[test]
fn level_changes_without_pause_overrun_at_capacity() {
    let mut pipeline =
        ReceivePipeline::new(ActivityLevel::Low, SyncOnTurningEdge::First, BitOrder::BigEndian);
    let mut level = true;
    for _ in 0..127 {
        level = !level;
        assert!(pipeline.can_feed(level));
        assert_eq!(pipeline.try_feed(level), Reception::Quiet);
    }
    assert!(pipeline.can_feed(level));
    assert!(!pipeline.can_feed(!level));
    assert_eq!(pipeline.service_tick(Some(!level)), Reception::Overrun);
    level = !level;
    // The sample went to a fresh decoder, which found the line at rest: the
    // count of changes starts over.
    for _ in 0..127 {
        level = !level;
        assert_eq!(pipeline.try_feed(level), Reception::Quiet);
    }
    assert!(!pipeline.can_feed(!level));
}

#[test]
fn decoder_works_on_after_an_overrun() {
    let mut pipeline =
        ReceivePipeline::new(ActivityLevel::Low, SyncOnTurningEdge::First, BitOrder::BigEndian);
    let mut level = true;
    let mut overruns = 0;
    for _ in 0..300 {
        level = !level;
        if pipeline.try_feed(level) == Reception::Overrun {
            overruns += 1;
        }
    }
    assert_eq!(overruns, 2);
    let seen = reports(&mut pipeline, &samples("-----------"));
    assert_eq!(seen, vec![]);
    let seen = reports(&mut pipeline, &samples(NIBBLE));
    assert_eq!(seen, vec![(38, Datagram::new("1011"))]);
}

/// The line for `bits`, three samples to the half bit, between two pauses at
/// the high resting level. A set bit pulls the line low at its edge; the first
/// bit has to be set for the line to move at all.
fn line_for(bits: &[bool]) -> Vec<bool> {
    let mut line = vec![true; 10];
    for (index, bit) in bits.iter().enumerate() {
        let level = !*bit;
        line.extend([level; 3]);
        if index + 1 < bits.len() {
            let next_is_same = bits[index + 1] == *bit;
            line.extend([if next_is_same { !level } else { level }; 3]);
        }
    }
    line.extend([true; 12]);
    line
}

fn text_for(bits: &[bool]) -> String {
    bits.iter().map(|bit| if *bit { '1' } else { '0' }).collect()
}

fn receptions(pipeline: &mut ReceivePipeline, line: &[bool]) -> (Vec<Datagram>, usize) {
    let mut reported = Vec::new();
    let mut overruns = 0;
    for sample in line {
        match pipeline.try_feed(*sample) {
            Reception::Report(datagram) => reported.push(datagram),
            Reception::Quiet => (),
            Reception::Overrun => overruns += 1,
        }
    }
    (reported, overruns)
}

#[test]
fn generated_line_matches_the_known_nibble() {
    let bits = [true, false, true, true];
    let mut pipeline =
        ReceivePipeline::new(ActivityLevel::Low, SyncOnTurningEdge::First, BitOrder::BigEndian);
    let (reported, overruns) = receptions(&mut pipeline, &line_for(&bits));
    assert_eq!(reported, vec![Datagram::new("1011")]);
    assert_eq!(overruns, 0);
}

#[test]
fn hundred_alternating_bits_are_received() {
    let bits: Vec<bool> = (0..100).map(|index| index % 2 == 0).collect();
    let mut pipeline =
        ReceivePipeline::new(ActivityLevel::Low, SyncOnTurningEdge::First, BitOrder::BigEndian);
    let (reported, overruns) = receptions(&mut pipeline, &line_for(&bits));
    assert_eq!(reported, vec![Datagram::new(&text_for(&bits))]);
    assert_eq!(reported[0].len(), 100);
    assert_eq!(overruns, 0);
}

#[test]
fn longest_datagram_within_capacity_is_received() {
    let bits: Vec<bool> = (0..126).map(|index| index % 2 == 0).collect();
    let mut pipeline =
        ReceivePipeline::new(ActivityLevel::Low, SyncOnTurningEdge::First, BitOrder::BigEndian);
    let (reported, overruns) = receptions(&mut pipeline, &line_for(&bits));
    assert_eq!(reported, vec![Datagram::new(&text_for(&bits))]);
    assert_eq!(reported[0].len(), 126);
    assert_eq!(overruns, 0);
}

#[test]
fn datagram_that_fills_the_decoder_overruns_on_its_last_edge() {
    let bits: Vec<bool> = (0..127).map(|index| index % 2 == 0).collect();
    let mut pipeline =
        ReceivePipeline::new(ActivityLevel::Low, SyncOnTurningEdge::First, BitOrder::BigEndian);
    let (reported, overruns) = receptions(&mut pipeline, &line_for(&bits));
    assert_eq!(reported, vec![]);
    assert_eq!(overruns, 1);
}

#[test]
fn sixty_three_equal_bits_are_received() {
    let bits = vec![true; 63];
    let mut pipeline =
        ReceivePipeline::new(ActivityLevel::Low, SyncOnTurningEdge::First, BitOrder::BigEndian);
    let (reported, overruns) = receptions(&mut pipeline, &line_for(&bits));
    assert_eq!(reported, vec![Datagram::new(&text_for(&bits))]);
    assert_eq!(overruns, 0);
}

#[test]
fn line_with_more_changes_than_capacity_overruns() {
    let bits = vec![true; 64];
    let mut pipeline =
        ReceivePipeline::new(ActivityLevel::Low, SyncOnTurningEdge::First, BitOrder::BigEndian);
    let (reported, overruns) = receptions(&mut pipeline, &line_for(&bits));
    assert_eq!(reported, vec![]);
    assert_eq!(overruns, 1);
    let (reported, overruns) = receptions(&mut pipeline, &samples(NIBBLE));
    assert_eq!(reported, vec![Datagram::new("1011")]);
    assert_eq!(overruns, 0);
}

#[test]
fn random_traffic_is_reported_as_the_decoder_decodes_it() {
    let mut state: u64 = 0x2545_f491_4f6c_dd1d;
    let mut next = move || {
        state ^= state << 13;
        state ^= state >> 7;
        state ^= state << 17;
        state
    };
    let mut line = Vec::new();
    let mut sent = 0;
    for _ in 0..2_000 {
        if next() % 4 == 0 {
            // A burst of noise that ends where it began, at the resting level.
            let mut level = true;
            for _ in 0..2 * (3 + next() % 12) {
                level = !level;
                for _ in 0..1 + next() % 8 {
                    line.push(level);
                }
            }
            line.extend([level; 10]);
        } else {
            let mut bits = vec![true];
            for _ in 0..next() % 20 {
                bits.push(next() % 2 == 0);
            }
            line.extend(line_for(&bits));
            sent += 1;
        }
    }
    let mut decoder = manchester_code::Decoder::new(
        manchester_code::ActivityLevel::Low,
        manchester_code::SyncOnTurningEdge::First,
        manchester_code::BitOrder::LittleEndian,
    );
    let mut pipeline =
        ReceivePipeline::new(ActivityLevel::Low, SyncOnTurningEdge::First, BitOrder::LittleEndian);
    let mut reported = 0;
    for sample in line {
        let expected = match decoder.next(sample) {
            Some(datagram) if datagram.len() > 2 => Reception::Report(datagram),
            _ => Reception::Quiet,
        };
        let got = pipeline.try_feed(sample);
        assert_eq!(got, expected);
        if got != Reception::Quiet {
            reported += 1;
        }
    }
    assert!(sent > 1_000);
    assert!(reported > 1_000);
}

#[test]
fn pause_resets_the_count_of_level_changes() {
    let mut pipeline =
        ReceivePipeline::new(ActivityLevel::Low, SyncOnTurningEdge::First, BitOrder::BigEndian);
    let mut level = true;
    for round in 0..4 {
        for _ in 0..100 {
            level = !level;
            assert_ne!(pipeline.try_feed(level), Reception::Overrun, "round {}", round);
        }
        for _ in 0..9 {
            assert_ne!(pipeline.try_feed(level), Reception::Overrun);
        }
    }
}
