//! How a finger scan attempt is judged while waiting for a finger, and the
//! LED signal that goes with each verdict.
use vstd::prelude::*;

use crate::led::{Color, LedConfig};
use crate::types::{ConfirmationCode, Error};

verus! {

/// The verdict on one attempt to collect a finger image
#[derive(Debug, Clone, Copy, PartialEq, Eq, Structural)]
pub enum ScanVerdict {
    /// A finger image was collected.
    Detected,
    /// No usable finger yet: no finger on the sensor, or too few features.
    KeepTrying,
    /// The sensor answered with a status other than success.
    Unexpected(ConfirmationCode),
    /// The sensor failed to collect the image.
    CollectionFailed,
    /// Any other error.
    Failed,
}

/// The verdict on the result of an image collection command.
pub open spec fn spec_judge_scan<E>(r: Result<ConfirmationCode, Error<E>>) -> ScanVerdict {
    match r {
        Ok(ConfirmationCode::Success) => ScanVerdict::Detected,
        Ok(c) => ScanVerdict::Unexpected(c),
        Err(Error::CommandErr(ConfirmationCode::NoFinger)) => ScanVerdict::KeepTrying,
        Err(Error::CommandErr(ConfirmationCode::ErrTooLittleData)) => ScanVerdict::KeepTrying,
        Err(Error::CommandErr(ConfirmationCode::EnrollErr)) => ScanVerdict::CollectionFailed,
        Err(_) => ScanVerdict::Failed,
    }
}

/// Judges the result of an image collection command.
pub fn judge_scan<E>(r: &Result<ConfirmationCode, Error<E>>) -> (v: ScanVerdict)
    ensures
        v == spec_judge_scan(*r),
{
    match r {
        Ok(ConfirmationCode::Success) => ScanVerdict::Detected,
        Ok(c) => ScanVerdict::Unexpected(*c),
        Err(Error::CommandErr(ConfirmationCode::NoFinger)) => ScanVerdict::KeepTrying,
        Err(Error::CommandErr(ConfirmationCode::ErrTooLittleData)) => ScanVerdict::KeepTrying,
        Err(Error::CommandErr(ConfirmationCode::EnrollErr)) => ScanVerdict::CollectionFailed,
        Err(_) => ScanVerdict::Failed,
    }
}

/// The light signal for the outcome of a scan attempt: blue, one flash,
/// when a finger was found; red, five quick flashes, when the scan went
/// wrong; none while the scan goes on.
pub open spec fn spec_scan_feedback(v: ScanVerdict) -> Option<LedConfig> {
    match v {
        ScanVerdict::KeepTrying => None,
        ScanVerdict::Detected => Some(LedConfig::spec_flashing(Color::Blue, 180, 1)),
        _ => Some(LedConfig::spec_flashing(Color::Red, 20, 5)),
    }
}

/// The light signal for the outcome of a scan attempt.
pub fn scan_feedback(v: ScanVerdict) -> (r: Option<LedConfig>)
    ensures
        r == spec_scan_feedback(v),
{
    match v {
        ScanVerdict::KeepTrying => None,
        ScanVerdict::Detected => Some(LedConfig::flashing(Color::Blue, 180, 1)),
        _ => Some(LedConfig::flashing(Color::Red, 20, 5)),
    }
}

/// The signal shown while waiting for a finger: purple breathing at speed
/// 100, until changed.
pub open spec fn spec_waiting_signal() -> LedConfig {
    LedConfig::spec_breathing(Color::Purple, 100, 255)
}

/// Where a finger scan stands
#[derive(Debug, Clone, Copy, PartialEq, Eq, Structural)]
pub enum ScanStage {
    /// Not started yet.
    Idle,
    /// The waiting signal is being shown.
    Opening,
    /// The time left is being checked.
    Clock,
    /// A finger image is being collected.
    Capturing,
    /// The signal for this verdict is being shown.
    Closing(ScanVerdict),
    /// Over.
    Finished,
}

/// What the caller has to do next for a finger scan
#[derive(Debug)]
#[verifier::reject_recursive_types(E)]
pub enum ScanAction<E> {
    /// Set the LED ring to this configuration.
    Signal(LedConfig),
    /// Tell whether the time for the scan is up.
    CheckClock,
    /// Pause briefly, then tell whether the time for the scan is up.
    Pause,
    /// Collect a finger image.
    Capture,
    /// The scan is over: `Ok` when a finger was detected or the time ran
    /// out, otherwise the verdict on the failed attempt.
    Finish(Result<(), ScanVerdict>),
    /// Setting the LED ring failed.
    Abort(Error<E>),
}

/// What happened for a finger scan
#[verifier::reject_recursive_types(E)]
pub enum ScanEvent<E> {
    /// The LED ring was set.
    Signalled,
    /// Setting the LED ring failed.
    SignalFailed(Error<E>),
    /// Whether the time for the scan is up.
    ClockRead(bool),
    /// The image collection command ended with this result.
    Captured(Result<ConfirmationCode, Error<E>>),
}

impl ScanStage {
    /// Whether the stage is one that the scan's own steps reach: a verdict
    /// is signalled only when it ends the scan.
    pub open spec fn wf(self) -> bool {
        self matches ScanStage::Closing(v) ==> !(v is KeepTrying)
    }

    /// Starting: the waiting signal is shown.
    pub open spec fn begin<E>(self) -> (ScanStage, ScanAction<E>) {
        (ScanStage::Opening, ScanAction::Signal(spec_waiting_signal()))
    }

    /// Whether `ev` is what the scan waits for.
    pub open spec fn accepts<E>(self, ev: ScanEvent<E>) -> bool {
        match self {
            ScanStage::Opening | ScanStage::Closing(_) => ev is Signalled || ev is SignalFailed,
            ScanStage::Clock => ev is ClockRead,
            ScanStage::Capturing => ev is Captured,
            _ => false,
        }
    }

    /// The scan and the caller's next action after `ev`.
    pub open spec fn next<E>(self, ev: ScanEvent<E>) -> (ScanStage, ScanAction<E>) {
        match (self, ev) {
            (_, ScanEvent::SignalFailed(e)) => (ScanStage::Finished, ScanAction::Abort(e)),
            (ScanStage::Opening, ScanEvent::Signalled) => (ScanStage::Clock, ScanAction::CheckClock),
            (ScanStage::Closing(v), ScanEvent::Signalled) => (
                ScanStage::Finished,
                ScanAction::Finish(
                    if v is Detected {
                        Ok(())
                    } else {
                        Err(v)
                    },
                ),
            ),
            (ScanStage::Clock, ScanEvent::ClockRead(expired)) => if expired {
                (ScanStage::Finished, ScanAction::Finish(Ok(())))
            } else {
                (ScanStage::Capturing, ScanAction::Capture)
            },
            (ScanStage::Capturing, ScanEvent::Captured(r)) => {
                let v = spec_judge_scan(r);
                match spec_scan_feedback(v) {
                    None => (ScanStage::Clock, ScanAction::Pause),
                    Some(signal) => (ScanStage::Closing(v), ScanAction::Signal(signal)),
                }
            },
            _ => (self, ScanAction::CheckClock),
        }
    }
}

/// A scan for a finger: the waiting signal, then image collections, a
/// short pause after each that finds no usable finger, until a finger is
/// detected, an attempt fails or the time is up
pub struct FingerScan {
    stage: ScanStage,
}

impl View for FingerScan {
    type V = ScanStage;

    closed spec fn view(&self) -> ScanStage {
        self.stage
    }
}

impl FingerScan {
    /// A scan, not started.
    pub fn new() -> (r: FingerScan)
        ensures
            r@ == ScanStage::Idle,
    {
        FingerScan { stage: ScanStage::Idle }
    }

    /// Starts the scan; the caller is to show the returned signal.
    pub fn start<E>(&mut self) -> (a: ScanAction<E>)
        ensures
            (final(self)@, a) == old(self)@.begin::<E>(),
    {
        self.stage = ScanStage::Opening;
        ScanAction::Signal(LedConfig::breathing(Color::Purple, 100, 255))
    }

    /// Whether `ev` can be taken by [`FingerScan::step`] now.
    pub fn accepts<E>(&self, ev: &ScanEvent<E>) -> (r: bool)
        ensures
            r == self@.accepts(*ev),
    {
        match self.stage {
            ScanStage::Opening | ScanStage::Closing(_) => match ev {
                ScanEvent::Signalled | ScanEvent::SignalFailed(_) => true,
                _ => false,
            },
            ScanStage::Clock => match ev {
                ScanEvent::ClockRead(_) => true,
                _ => false,
            },
            ScanStage::Capturing => match ev {
                ScanEvent::Captured(_) => true,
                _ => false,
            },
            _ => false,
        }
    }

    /// Takes the event `ev` and returns what the caller has to do next.
    pub fn step<E>(&mut self, ev: ScanEvent<E>) -> (a: ScanAction<E>)
        requires
            old(self)@.wf(),
            old(self)@.accepts(ev),
        ensures
            (final(self)@, a) == old(self)@.next(ev),
            final(self)@.wf(),
    {
        match ev {
            ScanEvent::SignalFailed(e) => {
                self.stage = ScanStage::Finished;
                ScanAction::Abort(e)
            },
            ScanEvent::Signalled => match self.stage {
                ScanStage::Closing(v) => {
                    self.stage = ScanStage::Finished;
                    ScanAction::Finish(
                        if let ScanVerdict::Detected = v {
                            Ok(())
                        } else {
                            Err(v)
                        },
                    )
                },
                _ => {
                    self.stage = ScanStage::Clock;
                    ScanAction::CheckClock
                },
            },
            ScanEvent::ClockRead(expired) => {
                if expired {
                    self.stage = ScanStage::Finished;
                    ScanAction::Finish(Ok(()))
                } else {
                    self.stage = ScanStage::Capturing;
                    ScanAction::Capture
                }
            },
            ScanEvent::Captured(r) => {
                let v = judge_scan(&r);
                match scan_feedback(v) {
                    None => {
                        self.stage = ScanStage::Clock;
                        ScanAction::Pause
                    },
                    Some(signal) => {
                        self.stage = ScanStage::Closing(v);
                        ScanAction::Signal(signal)
                    },
                }
            },
        }
    }
}

/// A scan opens with purple breathing at speed 100, count 255.
pub proof fn lemma_scan_opens_with_waiting_signal<E>(s: ScanStage)
    ensures
        s.begin::<E>().1 == ScanAction::<E>::Signal(spec_waiting_signal()),
        spec_waiting_signal().spec_payload() == seq![0x35u8, 0x01, 100, 0x03, 255],
{
    LedConfig::lemma_effect_payloads(Color::Purple, 100, 255);
}

/// A scan succeeds only after the signal for a detected finger, or when the
/// time is up; it fails only after the red signal for a failed attempt.
pub proof fn lemma_scan_outcomes<E>(s: ScanStage, ev: ScanEvent<E>)
    requires
        s.wf(),
        s.accepts(ev),
    ensures
        s.next(ev).1 == ScanAction::<E>::Finish(Ok(())) ==> (s == ScanStage::Closing(
            ScanVerdict::Detected,
        ) && ev is Signalled) || (s is Clock && ev == ScanEvent::<E>::ClockRead(true)),
        s.next(ev).1 matches ScanAction::Finish(Err(v)) ==> s == ScanStage::Closing(v) && !(
        v is Detected) && !(v is KeepTrying) && spec_scan_feedback(v) == Some(
            LedConfig::spec_flashing(Color::Red, 20, 5),
        ),
{
}

/// An image collection without a usable finger is followed by a pause, a
/// detected finger by one blue flash, any other outcome by five quick red
/// flashes.
pub proof fn lemma_scan_attempt<E>(r: Result<ConfirmationCode, Error<E>>)
    ensures
        spec_judge_scan(r) is KeepTrying ==> ScanStage::Capturing.next(ScanEvent::Captured(r))
            == (ScanStage::Clock, ScanAction::<E>::Pause),
        spec_judge_scan(r) is Detected ==> ScanStage::Capturing.next(ScanEvent::Captured(r)) == (
            ScanStage::Closing(ScanVerdict::Detected),
            ScanAction::<E>::Signal(LedConfig::spec_flashing(Color::Blue, 180, 1)),
        ),
        !(spec_judge_scan(r) is KeepTrying) && !(spec_judge_scan(r) is Detected)
            ==> ScanStage::Capturing.next(ScanEvent::Captured(r)) == (
            ScanStage::Closing(spec_judge_scan(r)),
            ScanAction::<E>::Signal(LedConfig::spec_flashing(Color::Red, 20, 5)),
        ),
{
}

/// The verdict on an attempt to combine the two character files into a
/// template
#[derive(Debug, Clone, Copy, PartialEq, Eq, Structural)]
pub enum TemplateVerdict {
    /// The template was generated.
    Combined,
    /// The character files belong to different fingers: the finger has to
    /// be presented again.
    PresentAgain,
    /// Any other error.
    Failed,
}

/// The verdict on the result of a template generation command.
pub open spec fn spec_judge_template<E>(r: Result<ConfirmationCode, Error<E>>) -> TemplateVerdict {
    match r {
        Ok(_) => TemplateVerdict::Combined,
        Err(Error::CommandErr(ConfirmationCode::FileCombinationFailed)) => TemplateVerdict::PresentAgain,
        Err(_) => TemplateVerdict::Failed,
    }
}

/// Judges the result of a template generation command.
pub fn judge_template<E>(r: &Result<ConfirmationCode, Error<E>>) -> (v: TemplateVerdict)
    ensures
        v == spec_judge_template(*r),
{
    match r {
        Ok(_) => TemplateVerdict::Combined,
        Err(Error::CommandErr(ConfirmationCode::FileCombinationFailed)) => TemplateVerdict::PresentAgain,
        Err(_) => TemplateVerdict::Failed,
    }
}

/// The verdicts in terms of the codes' bytes: a scan detects a finger only
/// on a success (0x00); no finger (0x02) and too few features (0x07) mean
/// trying on, a failed collection (0x03) is reported as such, everything
/// else fails; a template is combined on any success, and a mismatch of the
/// character files (0x0A) asks for the finger again.
pub proof fn lemma_verdict_bytes<E>(c: ConfirmationCode, e: Error<E>)
    ensures
        spec_judge_scan::<E>(Ok(c)) == if c.spec_code() == 0x00 {
            ScanVerdict::Detected
        } else {
            ScanVerdict::Unexpected(c)
        },
        spec_judge_scan::<E>(Err(Error::CommandErr(c))) == if c.spec_code() == 0x02
            || c.spec_code() == 0x07 {
            ScanVerdict::KeepTrying
        } else if c.spec_code() == 0x03 {
            ScanVerdict::CollectionFailed
        } else {
            ScanVerdict::Failed
        },
        !(e is CommandErr) ==> spec_judge_scan::<E>(Err(e)) == ScanVerdict::Failed,
        spec_judge_template::<E>(Ok(c)) == TemplateVerdict::Combined,
        spec_judge_template::<E>(Err(Error::CommandErr(c))) == if c.spec_code() == 0x0A {
            TemplateVerdict::PresentAgain
        } else {
            TemplateVerdict::Failed
        },
        !(e is CommandErr) ==> spec_judge_template::<E>(Err(e)) == TemplateVerdict::Failed,
{
    crate::types::lemma_confirmation_code_bytes();
}

/// The LED signals after a scan attempt, byte by byte: one blue flash at
/// speed 180 on a detected finger, five red flashes at speed 20 on any
/// failure, none while trying on.
pub proof fn lemma_feedback_bytes(v: ScanVerdict)
    ensures
        v is KeepTrying <==> spec_scan_feedback(v) is None,
        v is Detected ==> spec_scan_feedback(v).unwrap().spec_payload() == seq![
            0x35u8,
            0x02,
            180,
            0x02,
            1,
        ],
        !(v is Detected) && !(v is KeepTrying) ==> spec_scan_feedback(v).unwrap().spec_payload()
            == seq![0x35u8, 0x02, 20, 0x01, 5],
{
    LedConfig::lemma_effect_payloads(Color::Blue, 180, 1);
    LedConfig::lemma_effect_payloads(Color::Red, 20, 5);
}

/// The course of a scan: after the waiting signal the clock is checked;
/// time up ends the scan successfully, time left means a capture; once a
/// verdict has been signalled the scan ends, successfully only for a
/// detected finger; a failed LED call ends it with that error.
pub proof fn lemma_scan_course<E>(v: ScanVerdict, e: Error<E>)
    ensures
        ScanStage::Opening.next(ScanEvent::<E>::Signalled).1 == ScanAction::<E>::CheckClock,
        ScanStage::Clock.next(ScanEvent::<E>::ClockRead(true)) == (
            ScanStage::Finished,
            ScanAction::<E>::Finish(Ok(())),
        ),
        ScanStage::Clock.next(ScanEvent::<E>::ClockRead(false)) == (
            ScanStage::Capturing,
            ScanAction::<E>::Capture,
        ),
        ScanStage::Closing(v).next(ScanEvent::<E>::Signalled).1 == ScanAction::<E>::Finish(
            if v == ScanVerdict::Detected {
                Ok(())
            } else {
                Err(v)
            },
        ),
        ScanStage::Opening.next(ScanEvent::SignalFailed(e)).1 == ScanAction::<E>::Abort(e),
        ScanStage::Closing(v).next(ScanEvent::SignalFailed(e)).1 == ScanAction::<E>::Abort(e),
{
}

} // verus!
