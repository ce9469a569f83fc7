//! The transmit side: a job that yields one actuator level per tick, and the
//! slot that holds at most one such job.

use crate::codec::{
    binary_digits, datagram_bits, datagram_new, encoder_levels, encoder_new, encoder_next,
    manchester_levels, DATAGRAM_CAPACITY, ONE_DIGIT, ZERO_DIGIT,
};
use crate::slot::{applicable, SharedSlot};
use manchester_code::{Datagram, DatagramBigEndianIterator, Encoder};
use vstd::prelude::*;
use vstd::string::StringSliceAdditionalSpecFns;

verus! {

/// The datagram that `text` spells with its zeros and ones, first bit first;
/// other characters only separate. `None` when the text holds more bits than
/// a datagram has room for.
pub fn datagram_from_text(text: &str) -> (datagram: Option<Datagram>)
    ensures
        match datagram {
            Some(d) => binary_digits(text.spec_bytes()).len() <= DATAGRAM_CAPACITY
                && datagram_bits(d) == binary_digits(text.spec_bytes()),
            None => binary_digits(text.spec_bytes()).len() > DATAGRAM_CAPACITY,
        },
{
    let bytes = text.as_bytes();
    let mut digits: usize = 0;
    let mut i: usize = 0;
    while i < bytes.len()
        invariant
            i <= bytes.len(),
            digits <= i,
            digits == binary_digits(bytes@.take(i as int)).len(),
        decreases bytes.len() - i,
    {
        let byte: u8 = bytes[i];
        assert(bytes@.take(i + 1).drop_last() =~= bytes@.take(i as int));
        assert(bytes@.take(i + 1).last() == byte);
        if byte == ZERO_DIGIT || byte == ONE_DIGIT {
            digits = digits + 1;
        }
        i = i + 1;
    }
    assert(bytes@.take(i as int) =~= bytes@);
    if digits <= DATAGRAM_CAPACITY as usize {
        Some(datagram_new(text))
    } else {
        None
    }
}

/// Where a job takes its levels from.
#[derive(Debug)]
enum LevelSource {
    /// Manchester code of a datagram, produced half bit by half bit.
    Encoded(Encoder<DatagramBigEndianIterator>),
    /// A prepared pulse train, replayed as it stands: the levels, and how
    /// many of them have been handed out.
    Listed(Vec<bool>, usize),
}

/// An in-progress transmission: a finite sequence of actuator levels that is
/// consumed one level per tick and cannot be restarted.
#[derive(Debug)]
pub struct TransmitJob {
    source: LevelSource,
}

impl TransmitJob {
    /// The levels that the job has yet to produce, next one first.
    pub closed spec fn remaining(&self) -> Seq<bool> {
        match self.source {
            LevelSource::Encoded(encoder) => encoder_levels(encoder),
            LevelSource::Listed(levels, sent) => if sent <= levels.len() {
                levels@.skip(sent as int)
            } else {
                Seq::empty()
            },
        }
    }

    /// A job that sends `datagram` in Manchester code, first bit first.
    pub fn new(datagram: Datagram) -> (job: Self)
        ensures
            job.remaining() == manchester_levels(datagram_bits(datagram)),
    {
        TransmitJob { source: LevelSource::Encoded(encoder_new(datagram)) }
    }

    /// A job that replays `levels` as they stand.
    pub fn from_levels(levels: Vec<bool>) -> (job: Self)
        ensures
            job.remaining() == levels@,
    {
        assert(levels@.skip(0) =~= levels@);
        TransmitJob { source: LevelSource::Listed(levels, 0) }
    }

    /// Hands out the level for this tick, or `None` once the job is
    /// exhausted; an exhausted job stays as it is.
    pub fn next_level(&mut self) -> (level: Option<bool>)
        ensures
            match level {
                Some(l) => old(self).remaining().len() > 0 && l == old(self).remaining()[0]
                    && final(self).remaining() == old(self).remaining().drop_first(),
                None => old(self).remaining().len() == 0 && *final(self) == *old(self),
            },
    {
        match &mut self.source {
            LevelSource::Encoded(encoder) => encoder_next(encoder),
            LevelSource::Listed(levels, sent) => {
                if *sent < levels.len() {
                    let level = levels[*sent];
                    assert(levels@.skip(*sent + 1) =~= levels@.skip(*sent as int).drop_first());
                    *sent = *sent + 1;
                    Some(level)
                } else {
                    None
                }
            },
        }
    }
}

/// What the tick handler has to do to the actuator on one tick.
#[derive(Clone, Copy, Debug, PartialEq, Eq, Structural)]
pub enum TransmitStep {
    /// Nothing is being sent: leave the actuator as it is.
    Idle,
    /// Drive the actuator to this level: `true` energizes, `false` de-energizes.
    Drive(bool),
    /// The job ended on this tick: de-energize the actuator. The job leaves
    /// the slot on this tick too.
    Retire,
}

/// The step that a tick takes when the slot holds `pending`.
pub open spec fn step_of(pending: Option<Seq<bool>>) -> TransmitStep {
    match pending {
        None => TransmitStep::Idle,
        Some(levels) => if levels.len() > 0 {
            TransmitStep::Drive(levels[0])
        } else {
            TransmitStep::Retire
        },
    }
}

/// What the slot holds after a tick on `pending`.
pub open spec fn pending_after(pending: Option<Seq<bool>>) -> Option<Seq<bool>> {
    match pending {
        None => None,
        Some(levels) => if levels.len() > 0 {
            Some(levels.drop_first())
        } else {
            None
        },
    }
}

/// What the slot holds after `ticks` ticks on `pending` with no injection in
/// between.
pub open spec fn pending_after_ticks(pending: Option<Seq<bool>>, ticks: nat) -> Option<Seq<bool>>
    decreases ticks,
{
    if ticks == 0 {
        pending
    } else {
        pending_after(pending_after_ticks(pending, (ticks - 1) as nat))
    }
}

/// The slot of the transmit pipeline: empty while idle, one job while a
/// transmission is active.
#[derive(Debug)]
pub struct TransmitSlot {
    slot: SharedSlot<TransmitJob>,
}

impl View for TransmitSlot {
    type V = Option<Seq<bool>>;

    /// The levels that the active job has yet to produce, or `None` while idle.
    closed spec fn view(&self) -> Option<Seq<bool>> {
        match self.slot@ {
            Some(job) => Some(job.remaining()),
            None => None,
        }
    }
}

impl TransmitSlot {
    /// An idle slot.
    pub fn new() -> (slot: Self)
        ensures
            slot@ is None,
    {
        TransmitSlot { slot: SharedSlot::new() }
    }

    /// True while no job is active.
    pub fn is_idle(&self) -> (idle: bool)
        ensures
            idle == (self@ is None),
    {
        self.slot.is_empty()
    }

    /// Starts `job` if the slot is idle. An active job is never pre-empted:
    /// on an occupied slot nothing changes and `job` is handed back.
    pub fn inject(&mut self, job: TransmitJob) -> (outcome: Result<(), TransmitJob>)
        ensures
            old(self)@ is None ==> outcome is Ok && final(self)@ == Some(job.remaining()),
            old(self)@ is Some ==> outcome == Err::<(), TransmitJob>(job) && *final(self) == *old(
                self,
            ),
    {
        if self.slot.is_empty() {
            let _ = self.slot.replace(Some(job));
            Ok(())
        } else {
            Err(job)
        }
    }

    /// Starts sending `datagram` if the slot is idle, and says whether it did.
    /// The encoder is only built when the slot is free.
    pub fn inject_datagram(&mut self, datagram: Datagram) -> (accepted: bool)
        ensures
            accepted == (old(self)@ is None),
            accepted ==> final(self)@ == Some(manchester_levels(datagram_bits(datagram))),
            !accepted ==> *final(self) == *old(self),
    {
        if self.slot.is_empty() {
            let _ = self.slot.replace(Some(TransmitJob::new(datagram)));
            true
        } else {
            false
        }
    }

    /// Asks the active job for its next level. An exhausted job is reported
    /// as `Retire` and stays in the slot until `retire` removes it.
    fn advance(&mut self) -> (step: TransmitStep)
        ensures
            step == step_of(old(self)@),
            final(self)@ == pending_while_driven(old(self)@),
    {
        match self.slot.get_mut() {
            None => TransmitStep::Idle,
            Some(job) => match job.next_level() {
                Some(level) => TransmitStep::Drive(level),
                None => TransmitStep::Retire,
            },
        }
    }

    /// Empties the slot.
    fn retire(&mut self)
        ensures
            final(self)@ is None,
    {
        let _ = self.slot.take();
    }

    /// One tick with the actuator at hand: asks the active job for its next
    /// level, and retires the job when it has none left.
    pub fn tick(&mut self) -> (step: TransmitStep)
        ensures
            step == step_of(old(self)@),
            final(self)@ == pending_after(old(self)@),
    {
        let step = self.advance();
        match step {
            TransmitStep::Retire => self.retire(),
            _ => {},
        }
        step
    }
}

/// The tick handler of the transmitting side, with the peripherals behind
/// their slots and `world` for whatever the two peripheral operations share.
/// First the clock is acknowledged, if it is installed. Then, if the actuator
/// is installed, the active job is asked for its level and the actuator is
/// driven to it, or de-energized when the job has ended, and only then does
/// an ended job leave the slot; without an actuator the job is left alone.
///
/// The driving finds the world as the acknowledgement left it, and it is
/// shown the job slot as it stands at that moment, still occupied: that fixes
/// the order of the three.
pub fn service_transmit_tick<
    C,
    E,
    W,
    A: FnOnce(&mut C, &mut W),
    D: FnOnce(&mut E, &mut W, &TransmitSlot, bool),
>(
    clock: &mut SharedSlot<C>,
    actuator: &mut SharedSlot<E>,
    job: &mut TransmitSlot,
    world: &mut W,
    acknowledge: A,
    drive: D,
) -> (step: TransmitStep)
    requires
        applicable(acknowledge, old(clock)@, *old(world)),
        old(clock)@ is None && old(actuator)@ is Some && step_of(old(job)@) != TransmitStep::Idle
            ==> forall|e: &mut E, w: &mut W, slot: &TransmitSlot|
            *e == old(actuator)@->0 && *w == *old(world) && slot@ == pending_while_driven(
                old(job)@,
            ) ==> drive.requires((e, w, slot, level_of(step_of(old(job)@)))),
        old(clock)@ is Some && old(actuator)@ is Some && step_of(old(job)@) != TransmitStep::Idle
            ==> forall|c: &mut C, first: &mut W, e: &mut E, second: &mut W, slot: &TransmitSlot|
            *c == old(clock)@->0 && *first == *old(world) && acknowledge.ensures((c, first), ())
                && *e == old(actuator)@->0 && *second == *final(first) && slot@
                == pending_while_driven(old(job)@) ==> drive.requires(
                (e, second, slot, level_of(step_of(old(job)@))),
            ),
    ensures
        old(clock)@ is None ==> final(clock)@ is None,
        old(actuator)@ is None ==> final(actuator)@ is None && *final(job) == *old(job) && step
            == TransmitStep::Idle,
        old(actuator)@ is Some ==> final(actuator)@ is Some && step == step_of(old(job)@)
            && final(job)@ == pending_after(old(job)@),
        old(actuator)@ is Some && step == TransmitStep::Idle ==> final(actuator)@ == old(
            actuator,
        )@,
        old(clock)@ is None && step == TransmitStep::Idle ==> *final(world) == *old(world),
        old(clock)@ is Some && step == TransmitStep::Idle ==> final(clock)@ is Some && exists|
            c: &mut C,
            w: &mut W,
        |
            *c == old(clock)@->0 && *final(c) == final(clock)@->0 && *w == *old(world)
                && *final(w) == *final(world) && acknowledge.ensures((c, w), ()),
        old(clock)@ is None && step != TransmitStep::Idle ==> exists|
            e: &mut E,
            w: &mut W,
            slot: &TransmitSlot,
        |
            *e == old(actuator)@->0 && *final(e) == final(actuator)@->0 && *w == *old(world)
                && *final(w) == *final(world) && slot@ == pending_while_driven(old(job)@)
                && drive.ensures((e, w, slot, level_of(step)), ()),
        old(clock)@ is Some && step != TransmitStep::Idle ==> final(clock)@ is Some && exists|
            c: &mut C,
            first: &mut W,
            e: &mut E,
            second: &mut W,
            slot: &TransmitSlot,
        |
            *c == old(clock)@->0 && *final(c) == final(clock)@->0 && *first == *old(world)
                && acknowledge.ensures((c, first), ()) && *e == old(actuator)@->0 && *final(e)
                == final(actuator)@->0 && *second == *final(first) && *final(second)
                == *final(world) && slot@ == pending_while_driven(old(job)@) && drive.ensures(
                (e, second, slot, level_of(step)),
                (),
            ),
{
    let _ = clock.with_mut_in(world, acknowledge);
    match actuator.get_mut() {
        None => TransmitStep::Idle,
        Some(handle) => {
            let step = job.advance();
            match step {
                TransmitStep::Idle => {},
                TransmitStep::Drive(level) => {
                    assert(level_of(step_of(old(job)@)) == level && level_of(step) == level);
                    drive(handle, world, job, level);
                },
                TransmitStep::Retire => {
                    assert(level_of(step_of(old(job)@)) == false && level_of(step) == false);
                    drive(handle, world, job, false);
                    job.retire();
                },
            }
            step
        },
    }
}

/// What the slot holds at the moment at which the actuator is driven: the
/// job, one level on while it lasts, and the ended job when it has ended.
pub open spec fn pending_while_driven(pending: Option<Seq<bool>>) -> Option<Seq<bool>> {
    match pending {
        None => None,
        Some(levels) => if levels.len() > 0 {
            Some(levels.drop_first())
        } else {
            Some(levels)
        },
    }
}

/// The level that the actuator is driven to on a step: the job's level while
/// it lasts, and the inactive level otherwise.
pub open spec fn level_of(step: TransmitStep) -> bool {
    match step {
        TransmitStep::Drive(level) => level,
        _ => false,
    }
}

/// A job of `levels.len()` levels drives the actuator on that many ticks, one
/// level per tick in order; the tick after the last level retires the job and
/// empties the slot, no tick before that does, and every later tick is idle.
pub proof fn lemma_job_lifecycle(levels: Seq<bool>, tick: nat)
    requires
        tick >= 1,
    ensures
        tick <= levels.len() ==> step_of(
            pending_after_ticks(Some(levels), (tick - 1) as nat),
        ) == TransmitStep::Drive(levels[tick - 1]) && pending_after_ticks(Some(levels), tick)
            == Some(levels.skip(tick as int)),
        tick == levels.len() + 1 ==> step_of(
            pending_after_ticks(Some(levels), (tick - 1) as nat),
        ) == TransmitStep::Retire && pending_after_ticks(Some(levels), tick) is None,
        tick > levels.len() + 1 ==> step_of(
            pending_after_ticks(Some(levels), (tick - 1) as nat),
        ) == TransmitStep::Idle && pending_after_ticks(Some(levels), tick) is None,
    decreases tick,
{
    if tick == 1 {
        assert(pending_after_ticks(Some(levels), 0) == Some(levels));
        if levels.len() > 0 {
            assert(levels.drop_first() =~= levels.skip(1));
        }
    } else {
        lemma_job_lifecycle(levels, (tick - 1) as nat);
        if tick <= levels.len() {
            let before = levels.skip(tick - 1);
            assert(before.len() > 0);
            assert(before[0] == levels[tick - 1]);
            assert(before.drop_first() =~= levels.skip(tick as int));
        } else if tick == levels.len() + 1 {
            assert(levels.skip(tick - 1).len() == 0);
        }
    }
}

} // verus!
