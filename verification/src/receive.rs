//! The receive side: one sample per tick goes to the decoder, and completed
//! datagrams that are long enough to be real are reported.

use crate::codec::{
    datagram_bits, datagram_len, decoder_fresh, decoder_new, decoder_next, decoder_step,
    decoder_view, steady_after, ActivityLevel, BitOrder, SyncOnTurningEdge, DATAGRAM_CAPACITY,
    PAUSE_SAMPLES,
};
use crate::slot::{applicable, SharedSlot};
use manchester_code::{Datagram, Decoder};
use vstd::prelude::*;

verus! {

/// Decoder results of this many bits or fewer are taken as noise.
pub const NOISE_LENGTH: u8 = 2;

/// What is reported of a decoder result: a datagram of more than
/// `NOISE_LENGTH` bits, and nothing else.
pub open spec fn report_of(decoded: Option<Datagram>) -> Option<Datagram> {
    match decoded {
        Some(datagram) => if datagram_bits(datagram).len() > NOISE_LENGTH {
            Some(datagram)
        } else {
            None
        },
        None => None,
    }
}

/// Drops "nothing yet" and results too short to be a datagram; passes every
/// other result on unchanged.
pub fn length_filter(decoded: Option<Datagram>) -> (report: Option<Datagram>)
    ensures
        report == report_of(decoded),
{
    match decoded {
        Some(datagram) => {
            if datagram_len(&datagram) > NOISE_LENGTH {
                Some(datagram)
            } else {
                None
            }
        },
        None => None,
    }
}

/// What one tick of the receive pipeline yields.
#[derive(Clone, Copy, Debug, PartialEq, Eq)]
pub enum Reception {
    /// Nothing to report: no sample was at hand, the decoder needs more
    /// samples, or what it completed was noise.
    Quiet,
    /// A completed datagram that passed the length filter.
    Report(Datagram),
    /// The decoder might have been unable to record another bit, so a fresh
    /// decoder took its place before the sample was delivered. What had been
    /// recorded of a datagram in progress is lost.
    Overrun,
}

/// The reception that stands for a filtered decoder result.
pub open spec fn reception_of(report: Option<Datagram>) -> Reception {
    match report {
        Some(datagram) => Reception::Report(datagram),
        None => Reception::Quiet,
    }
}

/// The number of level changes since the line last paused, after one more
/// sample.
pub open spec fn changes_after(level: bool, steady: nat, changes: nat, sample: bool) -> nat {
    if sample != level {
        changes + 1
    } else if steady < PAUSE_SAMPLES {
        changes
    } else {
        0
    }
}

/// What has to hold of the pipeline `before` a tick for the tick to report
/// `datagram`: the line has paused, that is, it has stood at its level for
/// `PAUSE_SAMPLES` samples, and it changed its level before that pause at
/// least once for every bit of the datagram, which has more bits than noise
/// has.
pub open spec fn may_report(before: ReceivePipeline, datagram: Datagram) -> bool {
    &&& before.steady_samples() == PAUSE_SAMPLES
    &&& NOISE_LENGTH < datagram_bits(datagram).len() <= before.level_changes()
}

/// The decoder together with what the pipeline tracks of the line in order to
/// keep the decoder within its capacity.
pub struct ReceivePipeline {
    activity: ActivityLevel,
    sync: SyncOnTurningEdge,
    order: BitOrder,
    decoder: Decoder,
    level: bool,
    steady: u8,
    changes: u8,
}

impl ReceivePipeline {
    /// The pipeline's record of the line agrees with the decoder's state and
    /// bounds the number of bits that the decoder has recorded.
    pub closed spec fn wf(&self) -> bool {
        &&& decoder_view(self.decoder).level == self.level
        &&& decoder_view(self.decoder).steady == self.steady
        &&& decoder_view(self.decoder).recorded <= self.changes
        &&& 1 <= self.steady <= PAUSE_SAMPLES
        &&& self.changes <= DATAGRAM_CAPACITY
    }

    /// The pipeline's own counters are within their ranges.
    spec fn bounded(&self) -> bool {
        &&& 1 <= self.steady <= PAUSE_SAMPLES
        &&& self.changes <= DATAGRAM_CAPACITY
    }

    /// The level changes counted, and the samples for which the line has
    /// stood since the last of them, took at least `ticks` ticks.
    spec fn took(&self, ticks: nat) -> bool {
        &&& self.bounded()
        &&& self.changes > 0 ==> self.changes + self.steady - 1 <= ticks
    }

    /// The configuration that the decoder was made for.
    pub closed spec fn config(&self) -> (ActivityLevel, SyncOnTurningEdge, BitOrder) {
        (self.activity, self.sync, self.order)
    }

    /// The decoder as it stands.
    pub closed spec fn codec(&self) -> Decoder {
        self.decoder
    }

    /// The sample delivered last, or the resting level before the first one.
    pub closed spec fn line_level(&self) -> bool {
        self.level
    }

    /// How many samples ago the level last changed, counted up to
    /// `PAUSE_SAMPLES`.
    pub closed spec fn steady_samples(&self) -> nat {
        self.steady as nat
    }

    /// The number of level changes since the line last paused.
    pub closed spec fn level_changes(&self) -> nat {
        self.changes as nat
    }

    /// Whether `sample` can be delivered: a sample that repeats the level
    /// always can, one that changes it as long as fewer changes than
    /// `DATAGRAM_CAPACITY` were counted since the last pause.
    pub open spec fn accepts(&self, sample: bool) -> bool {
        sample == self.line_level() || self.level_changes() < DATAGRAM_CAPACITY
    }

    /// The pipeline after `sample` was delivered.
    pub closed spec fn fed(self, sample: bool) -> Self {
        ReceivePipeline {
            decoder: decoder_step(self.decoder, sample).0,
            level: sample,
            steady: steady_after(self.level, self.steady as nat, sample) as u8,
            changes: changes_after(self.level, self.steady as nat, self.changes as nat, sample) as u8,
            ..self
        }
    }

    /// The pipeline started over: a fresh decoder of the same configuration,
    /// and the line taken as paused at its resting level.
    pub closed spec fn restarted(self) -> Self {
        ReceivePipeline {
            decoder: decoder_fresh(self.activity, self.sync, self.order),
            level: resting(self.activity),
            steady: PAUSE_SAMPLES,
            changes: 0,
            ..self
        }
    }

    /// A pipeline around a fresh decoder, with the line taken as paused at
    /// its resting level.
    pub fn new(activity: ActivityLevel, sync: SyncOnTurningEdge, order: BitOrder) -> (pipeline:
        Self)
        ensures
            pipeline.wf(),
            pipeline.config() == (activity, sync, order),
            pipeline.codec() == decoder_fresh(activity, sync, order),
            pipeline.line_level() == resting(activity),
            pipeline.steady_samples() == PAUSE_SAMPLES,
            pipeline.level_changes() == 0,
    {
        ReceivePipeline {
            activity,
            sync,
            order,
            decoder: decoder_new(activity, sync, order),
            level: resting_level(activity),
            steady: PAUSE_SAMPLES,
            changes: 0,
        }
    }

    /// Starts over with a fresh decoder.
    fn restart(&mut self)
        ensures
            final(self).wf(),
            *final(self) == old(self).restarted(),
            final(self).level_changes() == 0,
    {
        self.decoder = decoder_new(self.activity, self.sync, self.order);
        self.level = resting_level(self.activity);
        self.steady = PAUSE_SAMPLES;
        self.changes = 0;
    }

    /// Tells whether `sample` can be delivered.
    pub fn can_feed(&self, sample: bool) -> (accepted: bool)
        ensures
            accepted == self.accepts(sample),
    {
        sample == self.level || self.changes < DATAGRAM_CAPACITY
    }

    /// Delivers one sample to the decoder and reports the datagram that it
    /// completed, if that is long enough. A datagram is only completed by a
    /// sample that finds the line paused at the level of the sample, and it
    /// has no more bits than the line has changed its level.
    pub fn feed(&mut self, sample: bool) -> (report: Option<Datagram>)
        requires
            old(self).wf(),
            old(self).accepts(sample),
        ensures
            final(self).wf(),
            *final(self) == old(self).fed(sample),
            final(self).config() == old(self).config(),
            final(self).codec() == decoder_step(old(self).codec(), sample).0,
            final(self).line_level() == sample,
            final(self).steady_samples() == steady_after(
                old(self).line_level(),
                old(self).steady_samples(),
                sample,
            ),
            final(self).level_changes() == changes_after(
                old(self).line_level(),
                old(self).steady_samples(),
                old(self).level_changes(),
                sample,
            ),
            report == report_of(decoder_step(old(self).codec(), sample).1),
            report matches Some(datagram) ==> sample == old(self).line_level() && may_report(
                *old(self),
                datagram,
            ),
    {
        let decoded = decoder_next(&mut self.decoder, sample);
        if sample != self.level {
            self.level = sample;
            self.steady = 1;
            self.changes = self.changes + 1;
        } else if self.steady < PAUSE_SAMPLES {
            self.steady = self.steady + 1;
        } else {
            self.changes = 0;
        }
        length_filter(decoded)
    }

    /// Delivers one sample, whatever the state of the decoder: to the decoder
    /// in place if it can take the sample, and to a fresh one otherwise.
    pub fn try_feed(&mut self, sample: bool) -> (reception: Reception)
        requires
            old(self).wf(),
        ensures
            final(self).wf(),
            (*final(self), reception) == tick_outcome(*old(self), Some(sample)),
            reception matches Reception::Report(datagram) ==> sample == old(self).line_level()
                && may_report(*old(self), datagram),
    {
        if self.can_feed(sample) {
            match self.feed(sample) {
                Some(datagram) => Reception::Report(datagram),
                None => Reception::Quiet,
            }
        } else {
            self.restart();
            let report = self.feed(sample);
            assert(report is None);
            Reception::Overrun
        }
    }

    /// The receive part of the tick handler. `sample` is the line level read
    /// on this tick, or `None` while the line is not installed, in which case
    /// nothing happens.
    pub fn service_tick(&mut self, sample: Option<bool>) -> (reception: Reception)
        requires
            old(self).wf(),
        ensures
            final(self).wf(),
            (*final(self), reception) == tick_outcome(*old(self), sample),
            reception matches Reception::Report(datagram) ==> sample == Some(
                old(self).line_level(),
            ) && may_report(*old(self), datagram),
    {
        match sample {
            Some(level) => self.try_feed(level),
            None => Reception::Quiet,
        }
    }
}

/// What a tick makes of the pipeline `before`, and what it yields. Without a
/// sample nothing happens. A sample that the decoder can take goes to it, and
/// its filtered result is the yield. Any other sample goes to the pipeline
/// started over, and the yield is an overrun.
pub open spec fn tick_outcome(before: ReceivePipeline, sample: Option<bool>) -> (
    ReceivePipeline,
    Reception,
) {
    match sample {
        None => (before, Reception::Quiet),
        Some(level) => if before.accepts(level) {
            (
                before.fed(level),
                reception_of(report_of(decoder_step(before.codec(), level).1)),
            )
        } else {
            (before.restarted().fed(level), Reception::Overrun)
        },
    }
}

/// The level that the line rests at between datagrams.
pub open spec fn resting(activity: ActivityLevel) -> bool {
    activity is Low
}

fn resting_level(activity: ActivityLevel) -> (level: bool)
    ensures
        level == resting(activity),
{
    match activity {
        ActivityLevel::High => false,
        ActivityLevel::Low => true,
    }
}

/// The tick handler of the receiving side, with the peripherals behind their
/// slots and `world` for whatever the two peripheral operations share. First
/// the clock is acknowledged, if it is installed. Then, if the input line is
/// installed, its level is read and goes to the decoder; without a line the
/// decoder is left alone. The reading finds the world as the acknowledgement
/// left it, which fixes the order of the two.
pub fn service_receive_tick<C, L, W, A: FnOnce(&mut C, &mut W), R: FnOnce(&mut L, &mut W) -> bool>(
    clock: &mut SharedSlot<C>,
    line: &mut SharedSlot<L>,
    pipeline: &mut ReceivePipeline,
    world: &mut W,
    acknowledge: A,
    read_level: R,
) -> (reception: Reception)
    requires
        old(pipeline).wf(),
        applicable(acknowledge, old(clock)@, *old(world)),
        old(clock)@ is None ==> applicable(read_level, old(line)@, *old(world)),
        old(clock)@ is Some ==> forall|c: &mut C, w: &mut W|
            *c == old(clock)@->0 && *w == *old(world) && acknowledge.ensures((c, w), ())
                ==> applicable(read_level, old(line)@, *final(w)),
    ensures
        final(pipeline).wf(),
        old(clock)@ is None ==> final(clock)@ is None,
        old(line)@ is None ==> final(line)@ is None && *final(pipeline) == *old(pipeline)
            && reception == Reception::Quiet,
        old(clock)@ is None && old(line)@ is None ==> *final(world) == *old(world),
        old(clock)@ is Some && old(line)@ is None ==> final(clock)@ is Some && exists|
            c: &mut C,
            w: &mut W,
        |
            *c == old(clock)@->0 && *final(c) == final(clock)@->0 && *w == *old(world)
                && *final(w) == *final(world) && acknowledge.ensures((c, w), ()),
        old(clock)@ is None && old(line)@ is Some ==> final(line)@ is Some && exists|
            l: &mut L,
            w: &mut W,
            sample: bool,
        |
            *l == old(line)@->0 && *final(l) == final(line)@->0 && *w == *old(world)
                && *final(w) == *final(world) && read_level.ensures((l, w), sample) && (
                *final(pipeline),
                reception,
            ) == tick_outcome(*old(pipeline), Some(sample)) && (reception is Report ==> sample
                == old(pipeline).line_level()),
        old(clock)@ is Some && old(line)@ is Some ==> final(clock)@ is Some && final(line)@
            is Some && exists|
            c: &mut C,
            first: &mut W,
            l: &mut L,
            second: &mut W,
            sample: bool,
        |
            *c == old(clock)@->0 && *final(c) == final(clock)@->0 && *first == *old(world)
                && acknowledge.ensures((c, first), ()) && *l == old(line)@->0 && *final(l)
                == final(line)@->0 && *second == *final(first) && *final(second)
                == *final(world) && read_level.ensures((l, second), sample) && (
                *final(pipeline),
                reception,
            ) == tick_outcome(*old(pipeline), Some(sample)) && (reception is Report ==> sample
                == old(pipeline).line_level()),
        reception matches Reception::Report(datagram) ==> may_report(*old(pipeline), datagram),
{
    let done = clock.with_mut_in(world, acknowledge);
    let sample = line.with_mut_in(world, read_level);
    pipeline.service_tick(sample)
}

/// The decoder after it has taken `samples` one by one, first one first.
pub open spec fn codec_after(decoder: Decoder, samples: Seq<bool>) -> Decoder
    decreases samples.len(),
{
    if samples.len() == 0 {
        decoder
    } else {
        decoder_step(codec_after(decoder, samples.drop_last()), samples.last()).0
    }
}

/// The pipeline after a run of ticks that found the samples `samples` on the
/// line, first one first.
pub open spec fn after_ticks(pipeline: ReceivePipeline, samples: Seq<bool>) -> ReceivePipeline
    decreases samples.len(),
{
    if samples.len() == 0 {
        pipeline
    } else {
        tick_outcome(after_ticks(pipeline, samples.drop_last()), Some(samples.last())).0
    }
}

/// The decoder that takes `sample` on a tick: the one in place if it can,
/// and a fresh one otherwise.
pub open spec fn codec_for(pipeline: ReceivePipeline, sample: bool) -> Decoder {
    if pipeline.accepts(sample) {
        pipeline.codec()
    } else {
        decoder_fresh(pipeline.config().0, pipeline.config().1, pipeline.config().2)
    }
}

/// Whether a run of ticks on `samples` goes without an overrun.
pub open spec fn accepts_all(pipeline: ReceivePipeline, samples: Seq<bool>) -> bool
    decreases samples.len(),
{
    samples.len() == 0 || (accepts_all(pipeline, samples.drop_last()) && after_ticks(
        pipeline,
        samples.drop_last(),
    ).accepts(samples.last()))
}

/// The number of level changes on a line that stood at `level` before the
/// samples `samples` were taken.
pub open spec fn changes_in(level: bool, samples: Seq<bool>) -> nat
    decreases samples.len(),
{
    if samples.len() == 0 {
        0
    } else {
        changes_in(level, samples.drop_last()) + if samples.last() != level_after(
            level,
            samples.drop_last(),
        ) {
            1nat
        } else {
            0nat
        }
    }
}

/// The level of a line that stood at `level` before the samples `samples`
/// were taken.
pub open spec fn level_after(level: bool, samples: Seq<bool>) -> bool {
    if samples.len() == 0 {
        level
    } else {
        samples.last()
    }
}

/// What `fed` does to each part of the pipeline's state.
pub proof fn lemma_fed(pipeline: ReceivePipeline, sample: bool)
    requires
        pipeline.wf(),
        pipeline.accepts(sample),
    ensures
        pipeline.fed(sample).config() == pipeline.config(),
        pipeline.fed(sample).codec() == decoder_step(pipeline.codec(), sample).0,
        pipeline.fed(sample).line_level() == sample,
        pipeline.fed(sample).steady_samples() == steady_after(
            pipeline.line_level(),
            pipeline.steady_samples(),
            sample,
        ),
        pipeline.fed(sample).level_changes() == changes_after(
            pipeline.line_level(),
            pipeline.steady_samples(),
            pipeline.level_changes(),
            sample,
        ),
{
}

/// What `restarted` makes of each part of the pipeline's state.
pub proof fn lemma_restarted(pipeline: ReceivePipeline)
    ensures
        pipeline.restarted().config() == pipeline.config(),
        pipeline.restarted().codec() == decoder_fresh(
            pipeline.config().0,
            pipeline.config().1,
            pipeline.config().2,
        ),
        pipeline.restarted().line_level() == resting(pipeline.config().0),
        pipeline.restarted().steady_samples() == PAUSE_SAMPLES,
        pipeline.restarted().level_changes() == 0,
{
}

proof fn lemma_run_within_capacity(pipeline: ReceivePipeline, samples: Seq<bool>)
    requires
        pipeline.bounded(),
        pipeline.level_changes() + changes_in(pipeline.line_level(), samples)
            <= DATAGRAM_CAPACITY,
    ensures
        accepts_all(pipeline, samples),
        after_ticks(pipeline, samples).bounded(),
        after_ticks(pipeline, samples).line_level() == level_after(
            pipeline.line_level(),
            samples,
        ),
        after_ticks(pipeline, samples).level_changes() <= pipeline.level_changes() + changes_in(
            pipeline.line_level(),
            samples,
        ),
    decreases samples.len(),
{
    if samples.len() > 0 {
        lemma_run_within_capacity(pipeline, samples.drop_last());
    }
}

/// No overrun is due as long as the line changes its level no more often than
/// a datagram has room for bits: a run of ticks on which the level changes
/// counted before, and those of the run, stay within `DATAGRAM_CAPACITY`
/// delivers every sample to the decoder in place.
pub proof fn lemma_few_changes_no_overrun(pipeline: ReceivePipeline, samples: Seq<bool>)
    requires
        pipeline.wf(),
        pipeline.level_changes() + changes_in(pipeline.line_level(), samples)
            <= DATAGRAM_CAPACITY,
    ensures
        accepts_all(pipeline, samples),
        after_ticks(pipeline, samples).codec() == codec_after(pipeline.codec(), samples),
{
    lemma_run_within_capacity(pipeline, samples);
    lemma_one_sample_per_tick(pipeline, samples);
}

proof fn lemma_changes_take_ticks(pipeline: ReceivePipeline, samples: Seq<bool>)
    requires
        pipeline.bounded(),
        pipeline.level_changes() == 0,
    ensures
        after_ticks(pipeline, samples).took(samples.len()),
    decreases samples.len(),
{
    if samples.len() > 0 {
        lemma_changes_take_ticks(pipeline, samples.drop_last());
    }
}

/// A report is at least twelve ticks away from a pipeline whose line has not
/// changed its level yet: a datagram has more than `NOISE_LENGTH` bits, each
/// bit takes a change of level, and the line has to stand for
/// `PAUSE_SAMPLES` samples after the last of them. So whatever the line does,
/// the state that a report needs is not reached by fewer than eleven ticks,
/// and in particular no report comes of the first two samples of a signal.
pub proof fn lemma_report_takes_twelve_ticks(
    pipeline: ReceivePipeline,
    samples: Seq<bool>,
    datagram: Datagram,
)
    requires
        pipeline.wf(),
        pipeline.level_changes() == 0,
        samples.len() < NOISE_LENGTH + PAUSE_SAMPLES,
    ensures
        !may_report(after_ticks(pipeline, samples), datagram),
{
    lemma_changes_take_ticks(pipeline, samples);
}

/// Every tick that finds a sample on the line delivers it to a decoder, once:
/// the decoder that the pipeline holds afterwards is the one that took the
/// sample, one step on.
pub proof fn lemma_every_tick_delivers(pipeline: ReceivePipeline, sample: bool)
    ensures
        tick_outcome(pipeline, Some(sample)).0.codec() == decoder_step(
            codec_for(pipeline, sample),
            sample,
        ).0,
        tick_outcome(pipeline, Some(sample)).0.config() == pipeline.config(),
        tick_outcome(pipeline, None).0 == pipeline,
{
}

/// Over a run of ticks without an overrun, however long, the decoder takes
/// exactly the samples of those ticks, each of them once and in the order of
/// the ticks: none is skipped and none is delivered twice.
pub proof fn lemma_one_sample_per_tick(pipeline: ReceivePipeline, samples: Seq<bool>)
    requires
        accepts_all(pipeline, samples),
    ensures
        after_ticks(pipeline, samples).codec() == codec_after(pipeline.codec(), samples),
    decreases samples.len(),
{
    if samples.len() > 0 {
        lemma_one_sample_per_tick(pipeline, samples.drop_last());
    }
}

} // verus!
