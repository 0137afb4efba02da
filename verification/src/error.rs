//! What can be wrong with a configuration, a dataset or a tensor shape.
use vstd::prelude::*;

verus! {

/// A configuration value that no renderer can be built from.
#[derive(Clone, Copy, Debug, PartialEq, Eq, Structural)]
pub enum ConfigError {
    /// The encoder was asked for zero frequency levels.
    EncodingFactor,
    /// A ray was asked to carry zero sample points.
    PointsPerRay,
    /// A chunk was asked to hold zero samples.
    ChunkSize,
    /// A layer would be wider than can be indexed.
    TooLarge,
}

/// Source data that no dataset can be built from.
#[derive(Clone, Copy, Debug, PartialEq, Eq, Structural)]
pub enum DatasetError {
    /// A ray was asked to carry zero sample points.
    PointsPerRay,
    /// The near and far distance are the same number.
    DistanceRange,
    /// The focal length array is empty.
    Focal,
    /// The image array does not have the four dimensions
    /// `[count, height, width, channels]`.
    Images,
    /// The pose array does not have the three dimensions
    /// `[count, rows, columns]`, or a pose has fewer than 3 rows or fewer
    /// than 4 columns.
    Poses,
    /// There are not as many poses as images.
    Count,
    /// The images do not have exactly three channels.
    Channels,
    /// The tensors of one image would hold more cells than can be indexed.
    TooLarge,
}

/// What is in the way of an artifact directory that must not be cleared.
#[derive(Clone, Copy, Debug, PartialEq, Eq, Structural)]
pub enum ArtifactError {
    /// A directory is there already.
    AlreadyExists,
    /// Something that is not a directory is there.
    NotADirectory,
}

/// Tensors whose shapes do not fit the operation they were handed to.
#[derive(Clone, Copy, Debug, PartialEq, Eq, Structural)]
pub enum ShapeError {
    /// Two tensors that are joined side by side differ in their row count.
    Rows,
    /// The joined coordinates do not have the width the first layer expects.
    Channels,
    /// The sample axis does not have the configured number of points.
    PointsPerRay,
    /// Directions, positions and intervals do not describe the same grid.
    Grid,
    /// The grid holds more samples than can be indexed.
    TooLarge,
}

} // verus!
