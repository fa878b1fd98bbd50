//! The parameters of the two pipelines.

use vstd::prelude::*;
use crate::error::StegError;
use crate::pixel::MAX_MERGE_BITS;

verus! {

/// `std::path::PathBuf`, carried through as an opaque value: nothing is
/// claimed of what a path holds.
#[verifier::external_type_specification]
#[verifier::external_body]
pub struct ExPathBuf(std::path::PathBuf);

/// What a merge needs: where its images are, and how many bits of the cover
/// each channel keeps.
pub struct MergeConfig {
    /// The cover image that will carry the secret.
    pub container_img: std::path::PathBuf,
    /// The image to hide.
    pub secret_img: std::path::PathBuf,
    /// Where the merged image goes. The directory must exist.
    pub output_img: std::path::PathBuf,
    /// The number of high-order bits of each cover channel that survive the
    /// merge; the remaining low-order bits carry the secret. At most 7.
    pub merge_bits: u8,
}

impl MergeConfig {
    /// Bundles the parameters as they are. The number of merge bits is
    /// checked by `validate`, and again by `merge_images`.
    pub fn new(
        container_img: std::path::PathBuf,
        secret_img: std::path::PathBuf,
        output_img: std::path::PathBuf,
        merge_bits: u8,
    ) -> (config: MergeConfig)
        ensures
            config.container_img == container_img,
            config.secret_img == secret_img,
            config.output_img == output_img,
            config.merge_bits == merge_bits,
    {
        MergeConfig { container_img, secret_img, output_img, merge_bits }
    }

    /// Whether the number of merge bits lies in `0..=7`.
    pub open spec fn valid(&self) -> bool {
        self.merge_bits <= MAX_MERGE_BITS
    }

    /// Rejects a number of merge bits outside `0..=7`.
    pub fn validate(&self) -> (checked: Result<(), StegError>)
        ensures
            checked is Ok <==> self.valid(),
            checked matches Err(e) ==> e == StegError::InvalidConfig,
    {
        if self.merge_bits <= MAX_MERGE_BITS {
            Ok(())
        } else {
            Err(StegError::InvalidConfig)
        }
    }
}

/// What an unmerge needs: where the merged image is, where the recovered
/// image goes, and the number of bits the merge was made with.
pub struct UnmergeConfig {
    /// An image that a merge produced.
    pub merged_img: std::path::PathBuf,
    /// Where the recovered image goes. The directory must exist.
    pub output_img: std::path::PathBuf,
    /// The number of merge bits that the merge was made with. At most 7.
    pub merge_bits: u8,
}

impl UnmergeConfig {
    /// Bundles the parameters as they are. The number of merge bits is
    /// checked by `validate`, and again by `unmerge_images`.
    pub fn new(
        merged_img: std::path::PathBuf,
        output_img: std::path::PathBuf,
        merge_bits: u8,
    ) -> (config: UnmergeConfig)
        ensures
            config.merged_img == merged_img,
            config.output_img == output_img,
            config.merge_bits == merge_bits,
    {
        UnmergeConfig { merged_img, output_img, merge_bits }
    }

    /// Whether the number of merge bits lies in `0..=7`.
    pub open spec fn valid(&self) -> bool {
        self.merge_bits <= MAX_MERGE_BITS
    }

    /// Rejects a number of merge bits outside `0..=7`.
    pub fn validate(&self) -> (checked: Result<(), StegError>)
        ensures
            checked is Ok <==> self.valid(),
            checked matches Err(e) ==> e == StegError::InvalidConfig,
    {
        if self.merge_bits <= MAX_MERGE_BITS {
            Ok(())
        } else {
            Err(StegError::InvalidConfig)
        }
    }
}

} // verus!
