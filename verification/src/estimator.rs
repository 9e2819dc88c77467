//! The throughput estimator: an exponential moving average of the samples it
//! is fed, and an uncertainty that decays at the same rate.
//!
//! Nothing here is floating point. The uncertainty is a fixed-point number,
//! a count of parts in [`UNCERTAINTY_ONE`], and both updates round down.

use vstd::prelude::*;
use crate::decimal::{numeral, to_decimal};

verus! {

/// The estimate a recorder starts from, in nodes per second: an optimistic one.
pub const INITIAL_NPS: u32 = 400_000;

/// The uncertainty 1.0, the largest there is: a recorder starts with it.
pub const UNCERTAINTY_ONE: u64 = 1_000_000_000_000_000_000;

/// The smoothing factor, in tenths: each sample keeps nine tenths of the old
/// estimate and of the old uncertainty.
pub const ALPHA_TENTHS: u64 = 9;

/// The uncertainty 0.1. Above it the estimate is shown with one mark.
pub const MARK_ONE: u64 = 100_000_000_000_000_000;

/// The uncertainty 0.4. Above it the estimate is shown with two marks.
pub const MARK_TWO: u64 = 400_000_000_000_000_000;

/// The uncertainty 0.7. Above it the estimate is shown with three marks.
pub const MARK_THREE: u64 = 700_000_000_000_000_000;

/// A smoothed estimate of nodes per second and core, with its uncertainty.
#[derive(Clone, Copy, Debug, PartialEq, Eq, Structural)]
pub struct NpsRecorder {
    /// The estimate, in nodes per second.
    pub nps: u32,
    /// The uncertainty, in parts of [`UNCERTAINTY_ONE`].
    pub uncertainty: u64,
}

/// `ALPHA_TENTHS` tenths of `x`, rounded down.
pub open spec fn decayed(x: u64) -> u64 {
    (x * ALPHA_TENTHS / 10) as u64
}

/// The moving average of an old estimate and a new sample, rounded down.
pub open spec fn smoothed(nps: u32, sample: u32) -> u32 {
    ((nps * ALPHA_TENTHS + sample * (10 - ALPHA_TENTHS)) / 10) as u32
}

/// The uncertainty of a fresh recorder that has since taken `samples` samples.
pub open spec fn uncertainty_after(samples: nat) -> u64
    decreases samples,
{
    if samples == 0 {
        UNCERTAINTY_ONE
    } else {
        decayed(uncertainty_after((samples - 1) as nat))
    }
}

impl NpsRecorder {
    /// The recorder before any sample.
    pub open spec fn fresh() -> NpsRecorder {
        NpsRecorder { nps: INITIAL_NPS, uncertainty: UNCERTAINTY_ONE }
    }

    /// The uncertainty lies between 0.0 and 1.0.
    pub open spec fn wf(self) -> bool {
        self.uncertainty <= UNCERTAINTY_ONE
    }

    /// The recorder once it has taken `sample`.
    pub open spec fn after_sample(self, sample: u32) -> NpsRecorder {
        NpsRecorder { nps: smoothed(self.nps, sample), uncertainty: decayed(self.uncertainty) }
    }

    /// The recorder once it has taken every sample of `samples`, first to
    /// last.
    pub open spec fn after_samples(self, samples: Seq<u32>) -> NpsRecorder
        decreases samples.len(),
    {
        if samples.len() == 0 {
            self
        } else {
            self.after_samples(samples.drop_last()).after_sample(samples.last())
        }
    }

    /// The marks that follow the estimate: one for each of the three
    /// thresholds that the uncertainty exceeds.
    pub open spec fn marks(self) -> Seq<char> {
        (if self.uncertainty > MARK_ONE {
            " ?"@
        } else {
            Seq::<char>::empty()
        }) + (if self.uncertainty > MARK_TWO {
            "?"@
        } else {
            Seq::<char>::empty()
        }) + (if self.uncertainty > MARK_THREE {
            "?"@
        } else {
            Seq::<char>::empty()
        })
    }

    /// The status line: thousands of nodes per second, the unit, the marks.
    pub open spec fn display(self) -> Seq<char> {
        numeral((self.nps / 1000) as nat) + " knps/core"@ + self.marks()
    }

    /// A recorder that has seen no sample: the optimistic estimate, and the
    /// largest uncertainty.
    pub fn new() -> (recorder: NpsRecorder)
        ensures
            recorder == NpsRecorder::fresh(),
            recorder.wf(),
    {
        NpsRecorder { nps: INITIAL_NPS, uncertainty: UNCERTAINTY_ONE }
    }

    /// Takes one sample. The estimate moves a tenth of the way to the sample
    /// and the uncertainty loses a tenth, both rounded down.
    pub fn record(&mut self, nps: u32)
        ensures
            *final(self) == old(self).after_sample(nps),
            final(self).nps as int == (old(self).nps * 9 + nps) / 10,
            final(self).uncertainty as int == old(self).uncertainty * 9 / 10,
            old(self).wf() ==> final(self).wf(),
    {
        let rest: u64 = 10 - ALPHA_TENTHS;
        assert((nps as u64) * rest == nps) by (nonlinear_arith)
            requires
                rest == 1,
        ;
        let kept: u64 = (self.nps as u64) * ALPHA_TENTHS;
        let gained: u64 = (nps as u64) * rest;
        let wide: u128 = (self.uncertainty as u128) * (ALPHA_TENTHS as u128) / 10;
        self.uncertainty = wide as u64;
        self.nps = ((kept + gained) / 10) as u32;
    }

    /// The status line, as [`NpsRecorder::display`] gives it.
    pub fn to_string(&self) -> (text: String)
        ensures
            text@ == self.display(),
    {
        let mut text: String = to_decimal((self.nps / 1000) as u64);
        text.append(" knps/core");
        if self.uncertainty > MARK_ONE {
            text.append(" ?");
        }
        if self.uncertainty > MARK_TWO {
            text.append("?");
        }
        if self.uncertainty > MARK_THREE {
            text.append("?");
        }
        assert(text@ =~= self.display());
        text
    }
}

/// A sample never carries the estimate past itself: the new estimate lies
/// between the old one and the sample.
pub proof fn lemma_estimate_stays_between(nps: u32, sample: u32)
    ensures
        nps <= sample ==> nps <= smoothed(nps, sample) <= sample,
        sample <= nps ==> sample <= smoothed(nps, sample) <= nps,
        sample < nps ==> smoothed(nps, sample) < nps,
        nps + 10 <= sample ==> nps < smoothed(nps, sample),
{
}

/// The uncertainty only ever falls: a sample never raises it, and lowers it
/// as long as any is left.
pub proof fn lemma_uncertainty_decays(uncertainty: u64)
    ensures
        decayed(uncertainty) <= uncertainty,
        uncertainty > 0 ==> decayed(uncertainty) < uncertainty,
{
}

/// The uncertainty after more samples is never above the one after fewer.
pub proof fn lemma_uncertainty_falls_with_samples(fewer: nat, more: nat)
    requires
        fewer <= more,
    ensures
        uncertainty_after(more) <= uncertainty_after(fewer),
    decreases more,
{
    if fewer < more {
        lemma_uncertainty_falls_with_samples(fewer, (more - 1) as nat);
        lemma_uncertainty_decays(uncertainty_after((more - 1) as nat));
    }
}

proof fn lemma_uncertainty_at_the_thresholds()
    ensures
        uncertainty_after(3) == 729_000_000_000_000_000,
        uncertainty_after(4) == 656_100_000_000_000_000,
        uncertainty_after(8) == 430_467_210_000_000_000,
        uncertainty_after(9) == 387_420_489_000_000_000,
        uncertainty_after(21) == 109_418_989_131_512_358,
        uncertainty_after(22) == 98_477_090_218_361_122,
{
    assert(uncertainty_after(0) == 1000000000000000000);
    assert(uncertainty_after(1) == 900000000000000000);
    assert(uncertainty_after(2) == 810000000000000000);
    assert(uncertainty_after(3) == 729000000000000000);
    assert(uncertainty_after(4) == 656100000000000000);
    assert(uncertainty_after(5) == 590490000000000000);
    assert(uncertainty_after(6) == 531441000000000000);
    assert(uncertainty_after(7) == 478296900000000000);
    assert(uncertainty_after(8) == 430467210000000000);
    assert(uncertainty_after(9) == 387420489000000000);
    assert(uncertainty_after(10) == 348678440100000000);
    assert(uncertainty_after(11) == 313810596090000000);
    assert(uncertainty_after(12) == 282429536481000000);
    assert(uncertainty_after(13) == 254186582832900000);
    assert(uncertainty_after(14) == 228767924549610000);
    assert(uncertainty_after(15) == 205891132094649000);
    assert(uncertainty_after(16) == 185302018885184100);
    assert(uncertainty_after(17) == 166771816996665690);
    assert(uncertainty_after(18) == 150094635296999121);
    assert(uncertainty_after(19) == 135085171767299208);
    assert(uncertainty_after(20) == 121576654590569287);
    assert(uncertainty_after(21) == 109418989131512358);
    assert(uncertainty_after(22) == 98477090218361122);
}

/// The uncertainty of a recorder tells how many samples it has taken, and
/// nothing of what they were.
pub proof fn lemma_uncertainty_counts_samples(samples: Seq<u32>)
    ensures
        NpsRecorder::fresh().after_samples(samples).uncertainty == uncertainty_after(
            samples.len(),
        ),
        NpsRecorder::fresh().after_samples(samples).wf(),
    decreases samples.len(),
{
    if samples.len() > 0 {
        lemma_uncertainty_counts_samples(samples.drop_last());
        lemma_uncertainty_falls_with_samples(0, samples.len());
    }
}

/// How long the marks last. A recorder that started fresh shows three marks
/// up to its third sample, two up to its eighth, one up to its twenty-first,
/// and none from the twenty-second on, whatever the samples were.
pub proof fn lemma_marks_by_samples(samples: Seq<u32>)
    ensures
        samples.len() <= 3 ==> NpsRecorder::fresh().after_samples(samples).marks() == " ???"@,
        3 < samples.len() <= 8 ==> NpsRecorder::fresh().after_samples(samples).marks() == " ??"@,
        8 < samples.len() <= 21 ==> NpsRecorder::fresh().after_samples(samples).marks() == " ?"@,
        21 < samples.len() ==> NpsRecorder::fresh().after_samples(samples).marks() == ""@,
{
    let count = samples.len();
    lemma_uncertainty_counts_samples(samples);
    lemma_uncertainty_at_the_thresholds();
    if count <= 3 {
        lemma_uncertainty_falls_with_samples(count, 3);
    } else {
        lemma_uncertainty_falls_with_samples(4, count);
    }
    if count <= 8 {
        lemma_uncertainty_falls_with_samples(count, 8);
    } else {
        lemma_uncertainty_falls_with_samples(9, count);
    }
    if count <= 21 {
        lemma_uncertainty_falls_with_samples(count, 21);
    } else {
        lemma_uncertainty_falls_with_samples(22, count);
    }
    reveal_strlit(" ???");
    reveal_strlit(" ??");
    reveal_strlit(" ?");
    reveal_strlit("?");
    reveal_strlit("");
    let marks = NpsRecorder::fresh().after_samples(samples).marks();
    if count <= 3 {
        assert(marks =~= " ???"@);
    } else if count <= 8 {
        assert(marks =~= " ??"@);
    } else if count <= 21 {
        assert(marks =~= " ?"@);
    } else {
        assert(marks =~= ""@);
    }
}

} // verus!
