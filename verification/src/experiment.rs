//! The decisions of an experiment that no tensor enters into: what to do
//! with what is found where artifacts are to be written, in which epochs
//! fidelity is measured while training, and how large the collage of a test
//! is.
use vstd::prelude::*;
use crate::error::ArtifactError;

verus! {

/// Fidelity is measured in every epoch whose number is a multiple of this.
pub const PROFILE_PERIOD: usize = 25;

/// What has to go before the artifact directory is made.
#[derive(Clone, Copy, Debug, PartialEq, Eq, Structural)]
pub enum Cleanup {
    /// Nothing is in the way.
    Nothing,
    /// A directory is in the way, and is removed with all it holds.
    RemoveDirectory,
    /// A file is in the way, and is removed.
    RemoveFile,
}

/// Epochs of training, counted.
#[derive(Clone, Copy, Debug)]
pub struct Training {
    epoch_count: usize,
    has_profile: bool,
    epoch: usize,
}

/// What is done about the path of the artifact directory. What is found
/// there is removed where clearing was asked for, and is an error where it
/// was not.
pub open spec fn spec_prepare_artifacts(is_directory: bool, exists: bool, do_clear: bool) -> Result<
    Cleanup,
    ArtifactError,
> {
    if is_directory {
        if do_clear {
            Ok(Cleanup::RemoveDirectory)
        } else {
            Err(ArtifactError::AlreadyExists)
        }
    } else if exists {
        if do_clear {
            Ok(Cleanup::RemoveFile)
        } else {
            Err(ArtifactError::NotADirectory)
        }
    } else {
        Ok(Cleanup::Nothing)
    }
}

/// The width and the height of the collage of `count` images of `height` by
/// `width` pixels: the images stand one below the other, and beside each
/// stands what was rendered for it. There is none without an image, nor
/// where a side does not fit in 32 bits.
pub open spec fn spec_collage_size(count: usize, height: usize, width: usize) -> Option<(u32, u32)> {
    if count == 0 || 2 * width > u32::MAX || count * height > u32::MAX {
        None
    } else {
        Some(((2 * width) as u32, (count * height) as u32))
    }
}

/// What is done about the path of the artifact directory, given whether a
/// directory is found there, whether anything is, and whether clearing was
/// asked for.
pub fn prepare_artifacts(is_directory: bool, exists: bool, do_clear: bool) -> (result: Result<
    Cleanup,
    ArtifactError,
>)
    ensures
        result == spec_prepare_artifacts(is_directory, exists, do_clear),
{
    if do_clear {
        if is_directory {
            Ok(Cleanup::RemoveDirectory)
        } else if exists {
            Ok(Cleanup::RemoveFile)
        } else {
            Ok(Cleanup::Nothing)
        }
    } else {
        if is_directory {
            Err(ArtifactError::AlreadyExists)
        } else if exists {
            Err(ArtifactError::NotADirectory)
        } else {
            Ok(Cleanup::Nothing)
        }
    }
}

/// The width and the height of the collage of a test.
pub fn collage_size(count: usize, height: usize, width: usize) -> (size: Option<(u32, u32)>)
    ensures
        size == spec_collage_size(count, height, width),
{
    if count == 0 || width > (u32::MAX / 2) as usize {
        return None;
    }
    if height == 0 {
        assert(count * height == 0) by (nonlinear_arith)
            requires
                height == 0,
        ;
        return Some(((2 * width) as u32, 0));
    }
    assert(count * height >= count && count * height >= height) by (nonlinear_arith)
        requires
            count >= 1,
            height >= 1,
    ;
    match count.checked_mul(height) {
        Some(rows) => if rows > u32::MAX as usize {
            None
        } else {
            Some(((2 * width) as u32, rows as u32))
        },
        None => None,
    }
}

impl Training {
    #[verifier::type_invariant]
    spec fn well_formed(self) -> bool {
        self.epoch <= self.epoch_count
    }

    /// The number of epochs to train for.
    pub closed spec fn spec_epoch_count(self) -> usize {
        self.epoch_count
    }

    /// Whether there is an item to measure fidelity on.
    pub closed spec fn spec_has_profile(self) -> bool {
        self.has_profile
    }

    /// The number of epochs that are over.
    pub closed spec fn spec_epoch(self) -> usize {
        self.epoch
    }

    /// Whether fidelity is measured at the end of the epoch that is next.
    pub open spec fn spec_profiles(self) -> bool {
        self.spec_epoch() < self.spec_epoch_count() && self.spec_has_profile() && self.spec_epoch()
            % PROFILE_PERIOD == 0
    }

    /// Training for `epoch_count` epochs, none of which is over.
    pub fn new(epoch_count: usize, has_profile: bool) -> (training: Training)
        ensures
            training.spec_epoch_count() == epoch_count,
            training.spec_has_profile() == has_profile,
            training.spec_epoch() == 0,
    {
        Training { epoch_count, has_profile, epoch: 0 }
    }

    /// The number of epochs that are over.
    pub fn epoch(&self) -> (epoch: usize)
        ensures
            epoch == self.spec_epoch(),
            epoch <= self.spec_epoch_count(),
    {
        proof {
            use_type_invariant(self);
        }
        self.epoch
    }

    /// Whether an epoch is left to train for.
    pub fn has_next(&self) -> (left: bool)
        ensures
            left == (self.spec_epoch() < self.spec_epoch_count()),
    {
        self.epoch < self.epoch_count
    }

    /// Counts the epoch that is next as over, and says whether fidelity is
    /// to be measured at its end. Where no epoch is left nothing changes.
    pub fn advance(&mut self) -> (profile: bool)
        ensures
            profile == old(self).spec_profiles(),
            final(self).spec_epoch_count() == old(self).spec_epoch_count(),
            final(self).spec_has_profile() == old(self).spec_has_profile(),
            final(self).spec_epoch() == if old(self).spec_epoch() < old(self).spec_epoch_count() {
                old(self).spec_epoch() + 1
            } else {
                old(self).spec_epoch() as int
            },
    {
        proof {
            use_type_invariant(&*self);
        }
        if self.epoch >= self.epoch_count {
            return false;
        }
        let profile: bool = self.has_profile && self.epoch % PROFILE_PERIOD == 0;
        self.epoch = self.epoch + 1;
        profile
    }
}

} // verus!
