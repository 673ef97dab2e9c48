use vstd::prelude::*;
use vstd::utf8::encode_utf8;
use crate::c_string::{has_null, CString};
use crate::double::Double;
use crate::error::{Error, ErrorKind};

verus! {

/// Native tune request policy: keep the current value.
pub const UHD_TUNE_REQUEST_POLICY_NONE: u32 = 78;

/// Native tune request policy: let the driver choose the value.
pub const UHD_TUNE_REQUEST_POLICY_AUTO: u32 = 65;

/// Native tune request policy: use the value given.
pub const UHD_TUNE_REQUEST_POLICY_MANUAL: u32 = 77;

/// Policies for how tuning should be accomplished
#[derive(Debug, Clone, Copy, PartialEq, Eq, Structural)]
pub enum TuneRequestPolicy {
    /// Keep the current value (the native library calls this policy "none")
    Keep,
    /// Automatically determine a new value
    Auto,
    /// Manually set a specific value
    ///
    /// The enclosed value is the desired frequency in hertz.
    Manual(Double),
}

impl TuneRequestPolicy {
    /// The native policy that stands for this one.
    pub open spec fn spec_c_policy(self) -> u32 {
        match self {
            TuneRequestPolicy::Keep => UHD_TUNE_REQUEST_POLICY_NONE,
            TuneRequestPolicy::Auto => UHD_TUNE_REQUEST_POLICY_AUTO,
            TuneRequestPolicy::Manual(_) => UHD_TUNE_REQUEST_POLICY_MANUAL,
        }
    }

    /// The frequency handed to the native library with this policy: the one
    /// enclosed in `Manual`, and zero with the other two.
    pub open spec fn spec_frequency(self) -> Double {
        match self {
            TuneRequestPolicy::Keep => (Double { bits: 0 }),
            TuneRequestPolicy::Auto => (Double { bits: 0 }),
            TuneRequestPolicy::Manual(frequency) => frequency,
        }
    }

    /// The policy that a native policy and the frequency beside it stand
    /// for, if the native policy is one of the three that exist.
    pub open spec fn from_c(policy: u32, frequency: Double) -> Option<TuneRequestPolicy> {
        if policy == UHD_TUNE_REQUEST_POLICY_NONE {
            Some(TuneRequestPolicy::Keep)
        } else if policy == UHD_TUNE_REQUEST_POLICY_AUTO {
            Some(TuneRequestPolicy::Auto)
        } else if policy == UHD_TUNE_REQUEST_POLICY_MANUAL {
            Some(TuneRequestPolicy::Manual(frequency))
        } else {
            None
        }
    }

    /// Returns the native policy that stands for this one.
    pub fn c_policy(&self) -> (policy: u32)
        ensures
            policy == self.spec_c_policy(),
    {
        match self {
            TuneRequestPolicy::Keep => UHD_TUNE_REQUEST_POLICY_NONE,
            TuneRequestPolicy::Auto => UHD_TUNE_REQUEST_POLICY_AUTO,
            TuneRequestPolicy::Manual(_) => UHD_TUNE_REQUEST_POLICY_MANUAL,
        }
    }

    /// Returns the frequency handed to the native library with this policy.
    pub fn frequency(&self) -> (frequency: Double)
        ensures
            frequency == self.spec_frequency(),
    {
        match self {
            TuneRequestPolicy::Keep | TuneRequestPolicy::Auto => Double::zero(),
            TuneRequestPolicy::Manual(frequency) => *frequency,
        }
    }
}

/// A request to tune a frontend
#[derive(Debug)]
pub struct TuneRequest {
    target_frequency: Double,
    rf: TuneRequestPolicy,
    dsp: TuneRequestPolicy,
    /// Extra arguments
    args: String,
}

/// What a tune request holds.
pub struct TuneRequestView {
    /// The frequency to tune to, in hertz.
    pub target_frequency: Double,
    /// The policy for the RF frontend.
    pub rf: TuneRequestPolicy,
    /// The policy for the DSP.
    pub dsp: TuneRequestPolicy,
    /// Additional device-specific arguments.
    pub args: Seq<char>,
}

impl View for TuneRequest {
    type V = TuneRequestView;

    closed spec fn view(&self) -> TuneRequestView {
        TuneRequestView {
            target_frequency: self.target_frequency,
            rf: self.rf,
            dsp: self.dsp,
            args: self.args@,
        }
    }
}

/// A tune request as the native library takes it.
#[derive(Debug)]
pub struct TuneRequestC {
    pub target_freq: Double,
    pub rf_freq_policy: u32,
    pub rf_freq: Double,
    pub dsp_freq_policy: u32,
    pub dsp_freq: Double,
    pub args: CString,
}

impl TuneRequestC {
    /// The tune request that the fields of this native form spell, if both
    /// native policies are among the three that exist and the arguments are
    /// valid UTF-8.
    pub open spec fn request(self) -> Option<TuneRequestView> {
        match (
            TuneRequestPolicy::from_c(self.rf_freq_policy, self.rf_freq),
            TuneRequestPolicy::from_c(self.dsp_freq_policy, self.dsp_freq),
        ) {
            (Some(rf), Some(dsp)) if vstd::utf8::valid_utf8(self.args@) => Some(
                TuneRequestView {
                    target_frequency: self.target_freq,
                    rf,
                    dsp,
                    args: vstd::utf8::decode_utf8(self.args@),
                },
            ),
            _ => None,
        }
    }
}

impl TuneRequest {
    /// Creates a tune request that automatically configures the hardware to tune to the desired
    /// frequency
    pub fn with_frequency(frequency: Double) -> (request: Self)
        ensures
            request@ == (TuneRequestView {
                target_frequency: frequency,
                rf: TuneRequestPolicy::Auto,
                dsp: TuneRequestPolicy::Auto,
                args: Seq::empty(),
            }),
    {
        TuneRequest {
            target_frequency: frequency,
            rf: TuneRequestPolicy::Auto,
            dsp: TuneRequestPolicy::Auto,
            args: String::new(),
        }
    }

    /// Creates a tune request that tunes to the desired frequency with the
    /// RF frontend set by hand to `rf_frequency`, and the DSP configured
    /// automatically
    pub fn with_rf_frequency(frequency: Double, rf_frequency: Double) -> (request: Self)
        ensures
            request@ == (TuneRequestView {
                target_frequency: frequency,
                rf: TuneRequestPolicy::Manual(rf_frequency),
                dsp: TuneRequestPolicy::Auto,
                args: Seq::empty(),
            }),
    {
        TuneRequest {
            target_frequency: frequency,
            rf: TuneRequestPolicy::Manual(rf_frequency),
            dsp: TuneRequestPolicy::Auto,
            args: String::new(),
        }
    }

    /// Sets the policy for tuning the RF frontend
    pub fn set_rf_policy(&mut self, policy: TuneRequestPolicy)
        ensures
            final(self)@ == (TuneRequestView { rf: policy, ..old(self)@ }),
    {
        self.rf = policy
    }

    /// Sets the policy for tuning the DSP
    pub fn set_dsp_policy(&mut self, policy: TuneRequestPolicy)
        ensures
            final(self)@ == (TuneRequestView { dsp: policy, ..old(self)@ }),
    {
        self.dsp = policy
    }

    /// Sets additional device-specific arguments
    pub fn set_args(&mut self, args: String)
        ensures
            final(self)@ == (TuneRequestView { args: args@, ..old(self)@ }),
    {
        self.args = args
    }

    /// Puts this request into the form that the native library takes. A null
    /// byte in the arguments gives `NullByte`.
    pub fn as_c_request(&self) -> (result: Result<TuneRequestC, Error>)
        ensures
            result is Ok <==> !has_null(encode_utf8(self@.args)),
            result is Ok ==> {
                &&& result->Ok_0.target_freq == self@.target_frequency
                &&& result->Ok_0.rf_freq_policy == self@.rf.spec_c_policy()
                &&& result->Ok_0.rf_freq == self@.rf.spec_frequency()
                &&& result->Ok_0.dsp_freq_policy == self@.dsp.spec_c_policy()
                &&& result->Ok_0.dsp_freq == self@.dsp.spec_frequency()
                &&& result->Ok_0.args@ == encode_utf8(self@.args)
                &&& result->Ok_0.request() == Some(self@)
            },
            result is Err ==> result->Err_0.spec_kind() == ErrorKind::NullByte,
            result is Err ==> result->Err_0.spec_text() is None,
    {
        broadcast use {vstd::utf8::encode_utf8_valid_utf8, vstd::utf8::encode_utf8_decode_utf8};

        let args = CString::new(self.args.as_str())?;
        Ok(
            TuneRequestC {
                target_freq: self.target_frequency,
                rf_freq_policy: self.rf.c_policy(),
                rf_freq: self.rf.frequency(),
                dsp_freq_policy: self.dsp.c_policy(),
                dsp_freq: self.dsp.frequency(),
                args,
            },
        )
    }
}

/// A policy is read back unchanged from the native policy and the frequency
/// that stand for it.
pub proof fn lemma_policy_round_trip(policy: TuneRequestPolicy)
    ensures
        TuneRequestPolicy::from_c(policy.spec_c_policy(), policy.spec_frequency()) == Some(policy),
{
}

} // verus!
