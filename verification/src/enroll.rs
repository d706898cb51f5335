//! The sequence that enrolls a finger: one finger image into character
//! buffer 1, then rounds of a further image into buffer 2 combined with it
//! into a template, and the template stored in the library.
//!
//! [`Enrollment`] decides what comes next; the caller collects finger
//! images, waits for the finger to be lifted and runs sensor commands, and
//! reports back what happened as an [`EnrollEvent`].
use vstd::prelude::*;

use crate::driver::Command;
use crate::scan::{judge_template, spec_judge_template, TemplateVerdict};
use crate::types::{CharacterBuffer, ConfirmationCode, Error};

verus! {

/// Where an enrollment stands
#[derive(Debug, Clone, Copy, PartialEq, Eq, Structural)]
pub enum EnrollStage {
    /// Not started yet.
    Idle,
    /// Waiting for the first finger image.
    FirstFinger,
    /// Generating the first character file, into buffer 1.
    FirstFeatures,
    /// Waiting for the finger to be lifted.
    Release,
    /// Waiting for a further finger image.
    NextFinger,
    /// Generating a further character file, into buffer 2.
    NextFeatures,
    /// Combining both character files into a template.
    Combining,
    /// Storing the template.
    Storing,
    /// Over, successfully or not.
    Finished,
}

/// The part of an enrollment that failed
#[derive(Debug, Clone, Copy, PartialEq, Eq, Structural)]
pub enum EnrollFailure {
    /// No finger image could be collected.
    FingerNotCollected,
    /// The first character file could not be generated.
    FirstFeatureFile,
    /// A further character file could not be generated.
    FeatureFile,
    /// Template generation failed for another reason than a finger mismatch.
    TemplateGeneration,
    /// The template could not be stored.
    Storage,
}

/// What the caller has to do next for an enrollment
#[derive(Debug)]
#[verifier::reject_recursive_types(E)]
pub enum EnrollAction<E> {
    /// Collect a finger image.
    PresentFinger,
    /// Wait until the finger is lifted.
    ReleaseFinger,
    /// The character files belonged to different fingers: wait until the
    /// finger is lifted and start the round again.
    RetryRound,
    /// Run this sensor command.
    Run(Command),
    /// The template is stored.
    Done,
    /// The enrollment failed, with the command error if a command failed.
    Abort(EnrollFailure, Option<Error<E>>),
}

/// What happened for an enrollment
#[verifier::reject_recursive_types(E)]
pub enum EnrollEvent<E> {
    /// A finger image was collected.
    FingerPresented,
    /// No finger image could be collected.
    FingerMissed,
    /// The finger was lifted.
    FingerReleased,
    /// The sensor command ended with this result.
    Completed(Result<ConfirmationCode, Error<E>>),
}

/// The state of an enrollment
pub struct EnrollmentView {
    /// The number of the next buffer-2 round, from 2 on.
    pub round: u16,
    /// The number of finger images to take.
    pub count: u8,
    /// The library slot for the template.
    pub template_id: u16,
    pub stage: EnrollStage,
}

impl EnrollmentView {
    /// The state with `stage`, and the round `round`.
    pub open spec fn at(self, stage: EnrollStage, round: u16) -> EnrollmentView {
        EnrollmentView { round, count: self.count, template_id: self.template_id, stage }
    }

    /// Whether the enrollment is in a state that its own steps reach: the
    /// rounds run from 2 up to the image count, the first image is taken
    /// before round 2, and a round is under way only while it is within
    /// the count.
    pub open spec fn wf(self) -> bool {
        &&& 2 <= self.round <= 256
        &&& (self.stage is FirstFinger || self.stage is FirstFeatures) ==> self.round == 2
        &&& (self.stage is Release || self.stage is NextFinger || self.stage is NextFeatures
            || self.stage is Combining) ==> self.round <= self.count
    }

    /// Once a character file is in buffer 1 and `round` rounds started:
    /// another round while the count is not reached, else store the
    /// template from buffer 1.
    pub open spec fn proceed<E>(self, round: u16) -> (EnrollmentView, EnrollAction<E>) {
        if round <= self.count {
            (self.at(EnrollStage::Release, round), EnrollAction::ReleaseFinger)
        } else {
            (
                self.at(EnrollStage::Storing, round),
                EnrollAction::Run(Command::StoreTemplate(CharacterBuffer::Buffer1, self.template_id)),
            )
        }
    }

    /// The enrollment ends in a failure.
    pub open spec fn abort<E>(self, failure: EnrollFailure, err: Option<Error<E>>) -> (
        EnrollmentView,
        EnrollAction<E>,
    ) {
        (self.at(EnrollStage::Finished, self.round), EnrollAction::Abort(failure, err))
    }

    /// Starting: the first finger image is awaited.
    pub open spec fn begin<E>(self) -> (EnrollmentView, EnrollAction<E>) {
        (self.at(EnrollStage::FirstFinger, 2), EnrollAction::PresentFinger)
    }

    /// Whether `ev` is what the enrollment waits for.
    pub open spec fn accepts<E>(self, ev: EnrollEvent<E>) -> bool {
        match self.stage {
            EnrollStage::FirstFinger | EnrollStage::NextFinger => ev is FingerPresented
                || ev is FingerMissed,
            EnrollStage::Release => ev is FingerReleased,
            EnrollStage::FirstFeatures | EnrollStage::NextFeatures | EnrollStage::Combining
            | EnrollStage::Storing => ev is Completed,
            _ => false,
        }
    }

    /// The enrollment and the caller's next action after `ev`.
    pub open spec fn next<E>(self, ev: EnrollEvent<E>) -> (EnrollmentView, EnrollAction<E>) {
        match (self.stage, ev) {
            (EnrollStage::FirstFinger, EnrollEvent::FingerPresented) => (
                self.at(EnrollStage::FirstFeatures, self.round),
                EnrollAction::Run(Command::Img2Tz(CharacterBuffer::Buffer1)),
            ),
            (EnrollStage::NextFinger, EnrollEvent::FingerPresented) => (
                self.at(EnrollStage::NextFeatures, self.round),
                EnrollAction::Run(Command::Img2Tz(CharacterBuffer::Buffer2)),
            ),
            (_, EnrollEvent::FingerMissed) => self.abort(EnrollFailure::FingerNotCollected, None),
            (EnrollStage::Release, EnrollEvent::FingerReleased) => (
                self.at(EnrollStage::NextFinger, self.round),
                EnrollAction::PresentFinger,
            ),
            (EnrollStage::FirstFeatures, EnrollEvent::Completed(r)) => match r {
                Ok(_) => self.proceed(self.round),
                Err(e) => self.abort(EnrollFailure::FirstFeatureFile, Some(e)),
            },
            (EnrollStage::NextFeatures, EnrollEvent::Completed(r)) => match r {
                Ok(_) => (
                    self.at(EnrollStage::Combining, self.round),
                    EnrollAction::Run(Command::GenTemplate),
                ),
                Err(e) => self.abort(EnrollFailure::FeatureFile, Some(e)),
            },
            (EnrollStage::Combining, EnrollEvent::Completed(r)) => match spec_judge_template(r) {
                TemplateVerdict::Combined => self.proceed((self.round + 1) as u16),
                TemplateVerdict::PresentAgain => (
                    self.at(EnrollStage::Release, self.round),
                    EnrollAction::RetryRound,
                ),
                TemplateVerdict::Failed => self.abort(
                    EnrollFailure::TemplateGeneration,
                    match r {
                        Err(e) => Some(e),
                        Ok(_) => None,
                    },
                ),
            },
            (EnrollStage::Storing, EnrollEvent::Completed(r)) => match r {
                Ok(_) => (self.at(EnrollStage::Finished, self.round), EnrollAction::Done),
                Err(e) => self.abort(EnrollFailure::Storage, Some(e)),
            },
            _ => (self, EnrollAction::Done),
        }
    }
}

/// Enrollment of a finger from `count` finger images into library slot
/// `template_id`
pub struct Enrollment {
    round: u16,
    count: u8,
    template_id: u16,
    stage: EnrollStage,
}

impl View for Enrollment {
    type V = EnrollmentView;

    closed spec fn view(&self) -> EnrollmentView {
        EnrollmentView {
            round: self.round,
            count: self.count,
            template_id: self.template_id,
            stage: self.stage,
        }
    }
}

impl Enrollment {
    /// An enrollment, not started, of a finger from `count` images into the
    /// library slot `template_id`.
    pub fn new(template_id: u16, count: u8) -> (r: Enrollment)
        ensures
            r@ == (EnrollmentView { round: 2, count, template_id, stage: EnrollStage::Idle }),
            r@.wf(),
    {
        Enrollment { round: 2, count, template_id, stage: EnrollStage::Idle }
    }

    /// The number of the buffer-2 round under way or next, from 2 on.
    pub fn round(&self) -> (r: u16)
        ensures
            r == self@.round,
    {
        self.round
    }

    /// Starts the enrollment; the caller is to collect a finger image.
    pub fn start<E>(&mut self) -> (a: EnrollAction<E>)
        ensures
            (final(self)@, a) == old(self)@.begin::<E>(),
            final(self)@.wf(),
    {
        self.round = 2;
        self.stage = EnrollStage::FirstFinger;
        EnrollAction::PresentFinger
    }

    /// Whether `ev` can be taken by [`Enrollment::step`] now.
    pub fn accepts<E>(&self, ev: &EnrollEvent<E>) -> (r: bool)
        ensures
            r == self@.accepts(*ev),
    {
        match self.stage {
            EnrollStage::FirstFinger | EnrollStage::NextFinger => match ev {
                EnrollEvent::FingerPresented | EnrollEvent::FingerMissed => true,
                _ => false,
            },
            EnrollStage::Release => match ev {
                EnrollEvent::FingerReleased => true,
                _ => false,
            },
            EnrollStage::FirstFeatures | EnrollStage::NextFeatures | EnrollStage::Combining
            | EnrollStage::Storing => match ev {
                EnrollEvent::Completed(_) => true,
                _ => false,
            },
            _ => false,
        }
    }

    /// Once a character file is in buffer 1 and `round` rounds started.
    fn proceed<E>(&mut self, round: u16) -> (a: EnrollAction<E>)
        ensures
            (final(self)@, a) == old(self)@.proceed::<E>(round),
    {
        self.round = round;
        if round <= self.count as u16 {
            self.stage = EnrollStage::Release;
            EnrollAction::ReleaseFinger
        } else {
            self.stage = EnrollStage::Storing;
            EnrollAction::Run(Command::StoreTemplate(CharacterBuffer::Buffer1, self.template_id))
        }
    }

    /// The enrollment ends in a failure.
    fn abort<E>(&mut self, failure: EnrollFailure, err: Option<Error<E>>) -> (a: EnrollAction<E>)
        ensures
            (final(self)@, a) == old(self)@.abort(failure, err),
    {
        self.stage = EnrollStage::Finished;
        EnrollAction::Abort(failure, err)
    }

    /// Takes the event `ev` and returns what the caller has to do next.
    pub fn step<E>(&mut self, ev: EnrollEvent<E>) -> (a: EnrollAction<E>)
        requires
            old(self)@.wf(),
            old(self)@.accepts(ev),
        ensures
            (final(self)@, a) == old(self)@.next(ev),
            final(self)@.wf(),
    {
        match ev {
            EnrollEvent::FingerPresented => {
                if let EnrollStage::FirstFinger = self.stage {
                    self.stage = EnrollStage::FirstFeatures;
                    EnrollAction::Run(Command::Img2Tz(CharacterBuffer::Buffer1))
                } else {
                    self.stage = EnrollStage::NextFeatures;
                    EnrollAction::Run(Command::Img2Tz(CharacterBuffer::Buffer2))
                }
            },
            EnrollEvent::FingerMissed => self.abort(EnrollFailure::FingerNotCollected, None),
            EnrollEvent::FingerReleased => {
                self.stage = EnrollStage::NextFinger;
                EnrollAction::PresentFinger
            },
            EnrollEvent::Completed(r) => match self.stage {
                EnrollStage::FirstFeatures => match r {
                    Ok(_) => self.proceed(self.round),
                    Err(e) => self.abort(EnrollFailure::FirstFeatureFile, Some(e)),
                },
                EnrollStage::NextFeatures => match r {
                    Ok(_) => {
                        self.stage = EnrollStage::Combining;
                        EnrollAction::Run(Command::GenTemplate)
                    },
                    Err(e) => self.abort(EnrollFailure::FeatureFile, Some(e)),
                },
                EnrollStage::Combining => match judge_template(&r) {
                    TemplateVerdict::Combined => self.proceed(self.round + 1),
                    TemplateVerdict::PresentAgain => {
                        self.stage = EnrollStage::Release;
                        EnrollAction::RetryRound
                    },
                    TemplateVerdict::Failed => {
                        let err = match r {
                            Err(e) => Some(e),
                            Ok(_) => None,
                        };
                        self.abort(EnrollFailure::TemplateGeneration, err)
                    },
                },
                _ => match r {
                    Ok(_) => {
                        self.stage = EnrollStage::Finished;
                        EnrollAction::Done
                    },
                    Err(e) => self.abort(EnrollFailure::Storage, Some(e)),
                },
            },
        }
    }
}

/// The template is stored only once every round has combined a further
/// finger image with the first one, and it goes to the chosen slot from
/// buffer 1.
pub proof fn lemma_store_after_all_rounds<E>(s: EnrollmentView, ev: EnrollEvent<E>)
    requires
        s.wf(),
        s.accepts(ev),
        s.next(ev).1 matches EnrollAction::Run(Command::StoreTemplate(_, _)),
    ensures
        s.next(ev).1 == EnrollAction::<E>::Run(
            Command::StoreTemplate(CharacterBuffer::Buffer1, s.template_id),
        ),
        s.next(ev).0.round > s.count,
        s.next(ev).0.round == if s.count < 2 {
            2
        } else {
            s.count + 1
        },
{
}

/// A round moves on only through a combined template: a combination of
/// character files from different fingers repeats the round from the
/// release of the finger.
pub proof fn lemma_rounds_advance_by_combination<E>(s: EnrollmentView, ev: EnrollEvent<E>)
    requires
        s.wf(),
        s.accepts(ev),
    ensures
        s.next(ev).0.round != s.round ==> ({
            &&& s.stage is Combining
            &&& ev matches EnrollEvent::Completed(r)
            &&& r is Ok
            &&& s.next(ev).0.round == s.round + 1
        }),
        s.stage is Combining && ev == EnrollEvent::<E>::Completed(
            Err(Error::CommandErr(ConfirmationCode::FileCombinationFailed)),
        ) ==> s.next(ev) == (s.at(EnrollStage::Release, s.round), EnrollAction::<E>::RetryRound),
{
}

/// Every step keeps an enrollment in a state that its steps reach.
pub proof fn lemma_enrollment_steps_keep_wf<E>(s: EnrollmentView, ev: EnrollEvent<E>)
    ensures
        s.begin::<E>().0.wf(),
        s.wf() && s.accepts(ev) ==> s.next(ev).0.wf(),
{
}

/// What each event leads to: the first image goes into buffer 1 and every
/// further one into buffer 2, a further character file is combined into a
/// template, a failed command ends the enrollment naming its part and
/// carrying the error, and the enrollment is done only when storing the
/// template succeeded.
pub proof fn lemma_enrollment_actions<E>(
    s: EnrollmentView,
    c: ConfirmationCode,
    e: Error<E>,
    ev: EnrollEvent<E>,
)
    requires
        s.wf(),
    ensures
        s.stage is FirstFinger ==> s.next(EnrollEvent::<E>::FingerPresented).1 == EnrollAction::<
            E,
        >::Run(Command::Img2Tz(CharacterBuffer::Buffer1)),
        s.stage is NextFinger ==> s.next(EnrollEvent::<E>::FingerPresented).1 == EnrollAction::<
            E,
        >::Run(Command::Img2Tz(CharacterBuffer::Buffer2)),
        (s.stage is FirstFinger || s.stage is NextFinger) ==> s.next(
            EnrollEvent::<E>::FingerMissed,
        ).1 == EnrollAction::<E>::Abort(EnrollFailure::FingerNotCollected, None),
        s.stage is Release ==> s.next(EnrollEvent::<E>::FingerReleased).1
            == EnrollAction::<E>::PresentFinger,
        s.stage is FirstFeatures ==> s.next(EnrollEvent::Completed(Err(e))).1
            == EnrollAction::<E>::Abort(EnrollFailure::FirstFeatureFile, Some(e)),
        s.stage is NextFeatures ==> s.next(EnrollEvent::Completed(Err(e))).1
            == EnrollAction::<E>::Abort(EnrollFailure::FeatureFile, Some(e)),
        s.stage is NextFeatures ==> s.next(EnrollEvent::<E>::Completed(Ok(c))).1
            == EnrollAction::<E>::Run(Command::GenTemplate),
        s.stage is Combining && e != Error::<E>::CommandErr(ConfirmationCode::FileCombinationFailed)
            ==> s.next(EnrollEvent::Completed(Err(e))).1 == EnrollAction::<E>::Abort(
            EnrollFailure::TemplateGeneration,
            Some(e),
        ),
        s.stage is Combining ==> s.next(EnrollEvent::<E>::Completed(Ok(c))).0.round == s.round + 1,
        s.stage is Storing ==> s.next(EnrollEvent::Completed(Err(e))) == (
            EnrollmentView {
                round: s.round,
                count: s.count,
                template_id: s.template_id,
                stage: EnrollStage::Finished,
            },
            EnrollAction::<E>::Abort(EnrollFailure::Storage, Some(e)),
        ),
        s.stage is Storing ==> s.next(EnrollEvent::<E>::Completed(Ok(c))).1
            == EnrollAction::<E>::Done,
        s.accepts(ev) && s.next(ev).1 is Done ==> s.stage is Storing && (ev matches EnrollEvent::Completed(r) && r is Ok),
{
}

} // verus!
