use vstd::prelude::*;
use crate::double::Double;

verus! {

/// The result of a tuning operation
#[derive(Debug, Clone, Copy, PartialEq, Eq, Structural)]
pub struct TuneResult {
    clipped_rf_freq: Double,
    target_rf_freq: Double,
    actual_rf_freq: Double,
    target_dsp_freq: Double,
    actual_dsp_freq: Double,
}

/// What the result of a tuning operation holds, as the native library
/// lays it out.
pub struct TuneResultView {
    pub clipped_rf_freq: Double,
    pub target_rf_freq: Double,
    pub actual_rf_freq: Double,
    pub target_dsp_freq: Double,
    pub actual_dsp_freq: Double,
}

impl View for TuneResult {
    type V = TuneResultView;

    closed spec fn view(&self) -> TuneResultView {
        TuneResultView {
            clipped_rf_freq: self.clipped_rf_freq,
            target_rf_freq: self.target_rf_freq,
            actual_rf_freq: self.actual_rf_freq,
            target_dsp_freq: self.target_dsp_freq,
            actual_dsp_freq: self.actual_dsp_freq,
        }
    }
}

impl TuneResult {
    /// The result with the frequencies that the native library reported, in
    /// the order in which it lays them out.
    pub fn from_native(
        clipped_rf_freq: Double,
        target_rf_freq: Double,
        actual_rf_freq: Double,
        target_dsp_freq: Double,
        actual_dsp_freq: Double,
    ) -> (result: Self)
        ensures
            result@ == (TuneResultView {
                clipped_rf_freq,
                target_rf_freq,
                actual_rf_freq,
                target_dsp_freq,
                actual_dsp_freq,
            }),
    {
        TuneResult {
            clipped_rf_freq,
            target_rf_freq,
            actual_rf_freq,
            target_dsp_freq,
            actual_dsp_freq,
        }
    }

    /// Returns the target RF frequency
    pub fn target_rf_freq(&self) -> (frequency: Double)
        ensures
            frequency == self@.target_rf_freq,
    {
        self.target_rf_freq
    }

    /// Returns the target RF frequency constrained to the device's supported frequency range
    pub fn clipped_rf_freq(&self) -> (frequency: Double)
        ensures
            frequency == self@.clipped_rf_freq,
    {
        self.clipped_rf_freq
    }

    /// Returns the actual RF frequency
    pub fn actual_rf_freq(&self) -> (frequency: Double)
        ensures
            frequency == self@.actual_rf_freq,
    {
        self.actual_rf_freq
    }

    /// Returns the target DSP frequency adjustment
    pub fn target_dsp_freq(&self) -> (frequency: Double)
        ensures
            frequency == self@.target_dsp_freq,
    {
        self.target_dsp_freq
    }

    /// Returns the actual DSP frequency adjustment
    pub fn actual_dsp_freq(&self) -> (frequency: Double)
        ensures
            frequency == self@.actual_dsp_freq,
    {
        self.actual_dsp_freq
    }
}

impl Default for TuneResult {
    /// The result whose frequencies are all zero.
    fn default() -> (result: Self)
        ensures
            result@.clipped_rf_freq.bits == 0,
            result@.target_rf_freq.bits == 0,
            result@.actual_rf_freq.bits == 0,
            result@.target_dsp_freq.bits == 0,
            result@.actual_dsp_freq.bits == 0,
    {
        TuneResult {
            clipped_rf_freq: Double::zero(),
            target_rf_freq: Double::zero(),
            actual_rf_freq: Double::zero(),
            target_dsp_freq: Double::zero(),
            actual_dsp_freq: Double::zero(),
        }
    }
}

} // verus!
