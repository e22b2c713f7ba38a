use vstd::prelude::*;

verus! {

/// Whether training reports progress at epoch `epoch` of `epochs`: at every
/// epoch when there are fewer than a hundred, else about every hundredth.
pub open spec fn progress_spec(epoch: u16, epochs: u16) -> bool {
    epochs < 100 || epoch % (epochs / 100) == 0
}

/// Whether training reports progress at epoch `epoch` (counted from 1) of `epochs`.
pub fn progress_due(epoch: u16, epochs: u16) -> (r: bool)
    ensures
        r == progress_spec(epoch, epochs),
{
    epochs < 100 || epoch % (epochs / 100) == 0
}

/// One training step: run the forward and the backward pass on sample
/// `sample` during epoch `epoch` (counted from 1), and report progress first
/// where `report` holds.
#[derive(Clone, Copy, Debug, PartialEq, Eq, Structural)]
pub struct Step {
    pub epoch: u16,
    pub sample: usize,
    pub report: bool,
}

/// The order of training steps: every sample, in order, once per epoch,
/// for a fixed number of epochs.
pub struct Schedule {
    epochs: u16,
    samples: usize,
    epoch: u16,
    sample: usize,
}

impl Schedule {
    pub closed spec fn epochs_spec(&self) -> u16 {
        self.epochs
    }

    pub closed spec fn samples_spec(&self) -> usize {
        self.samples
    }

    /// Epochs completed so far.
    pub closed spec fn epoch_spec(&self) -> u16 {
        self.epoch
    }

    /// Index of the next sample within the current epoch.
    pub closed spec fn sample_spec(&self) -> usize {
        self.sample
    }

    pub open spec fn wf(&self) -> bool {
        &&& self.epoch_spec() <= self.epochs_spec()
        &&& self.samples_spec() == 0 || self.sample_spec() < self.samples_spec()
        &&& self.epoch_spec() == self.epochs_spec() ==> self.sample_spec() == 0
    }

    /// No step is left.
    pub open spec fn finished(&self) -> bool {
        self.epoch_spec() == self.epochs_spec() || self.samples_spec() == 0
    }

    /// The step that comes after this point of the schedule.
    pub open spec fn step_spec(&self) -> Step {
        Step {
            epoch: (self.epoch_spec() + 1) as u16,
            sample: self.sample_spec(),
            report: self.sample_spec() == 0 && progress_spec((self.epoch_spec() + 1) as u16, self.epochs_spec()),
        }
    }

    /// A schedule of `epochs` passes over `samples` samples, none of it done.
    pub fn new(epochs: u16, samples: usize) -> (r: Schedule)
        ensures
            r.wf(),
            r.epochs_spec() == epochs,
            r.samples_spec() == samples,
            r.epoch_spec() == 0,
            r.sample_spec() == 0,
    {
        Schedule { epochs, samples, epoch: 0, sample: 0 }
    }

    /// The next step, or `None` once every epoch has run over every sample.
    pub fn next(&mut self) -> (r: Option<Step>)
        requires
            old(self).wf(),
        ensures
            final(self).wf(),
            final(self).epochs_spec() == old(self).epochs_spec(),
            final(self).samples_spec() == old(self).samples_spec(),
            old(self).finished() ==> r is None && *final(self) == *old(self),
            !old(self).finished() ==> r == Some(old(self).step_spec()),
            !old(self).finished() && old(self).sample_spec() + 1 < old(self).samples_spec() ==> final(self).epoch_spec()
                == old(self).epoch_spec() && final(self).sample_spec() == old(self).sample_spec() + 1,
            !old(self).finished() && old(self).sample_spec() + 1 == old(self).samples_spec() ==> final(self).epoch_spec()
                == old(self).epoch_spec() + 1 && final(self).sample_spec() == 0,
    {
        if self.epoch == self.epochs || self.samples == 0 {
            return None;
        }
        let epoch = self.epoch + 1;
        let step = Step { epoch, sample: self.sample, report: self.sample == 0 && progress_due(epoch, self.epochs) };
        if self.sample + 1 < self.samples {
            self.sample = self.sample + 1;
        } else {
            self.sample = 0;
            self.epoch = epoch;
        }
        Some(step)
    }
}

/// A schedule of zero epochs is finished from the start: training then
/// takes no step, so it leaves the weights and biases as they were.
pub proof fn lemma_zero_epochs_take_no_step(s: Schedule)
    requires
        s.wf(),
        s.epochs_spec() == 0,
    ensures
        s.finished(),
{
}

} // verus!
