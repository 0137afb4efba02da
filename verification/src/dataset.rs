//! The posed images of one scene, and the rays that are cast through them.
//!
//! A dataset does not hold pixels. It holds, for each of its images, the
//! index of that image in the arrays it was built from, together with the
//! geometry that all images share: the size of the pixel grid, the number of
//! sample points on a ray and the distances between which they lie. That is
//! all it takes to say which shape each tensor of an item has, which images
//! a split keeps, and where on the image plane a pixel lies.
use vstd::prelude::*;
use core::ops::Range;
use crate::error::DatasetError;
use crate::ieee::{
    double_equal, double_is_less, double_less, doubles_equal, one_selects_all, share,
    share_is_bounded, spec_share, zero_selects_none,
};
use crate::renderer::spec_forward_error;

verus! {

/// Length given to the interval behind the last sample point of a ray, which
/// stands for a ray that goes on without bound.
pub const UNBOUNDED_INTERVAL: u32 = 1_000_000_000;

/// How rays are sampled.
#[derive(Debug)]
pub struct SimpleNerfDatasetConfig {
    /// Number of sample points on each ray.
    pub points_per_ray: usize,
    /// The two distances between which the sample points lie, as the bit
    /// patterns of double-precision numbers, in either order.
    pub distance_range: Range<u64>,
}

/// A run of images of one scene.
#[derive(Debug)]
pub struct SimpleNerfDataset {
    height: usize,
    width: usize,
    points_per_ray: usize,
    near: u64,
    far: u64,
    inners: Vec<usize>,
    has_noisy_distance: bool,
}

/// The two parts of a dataset that training works with.
#[derive(Clone, Debug)]
pub struct SimpleNerfDatasetSplit {
    pub test: SimpleNerfDataset,
    pub train: SimpleNerfDataset,
}

/// One image of a dataset: where its pixels are found, and the shape of each
/// tensor that is made for it.
#[derive(Clone, Copy, Debug, PartialEq, Eq)]
pub struct SimpleNerfData {
    /// Index of the image, and of its pose, in the source arrays.
    pub index: usize,
    /// Whether the sample distances are to be perturbed on this access.
    pub has_noisy_distance: bool,
    /// `[height, width, points_per_ray, 3]`.
    pub directions: [usize; 4],
    /// `[height, width, 3]`.
    pub image: [usize; 3],
    /// `[height, width, points_per_ray, 1]`.
    pub intervals: [usize; 4],
    /// `[height, width, points_per_ray, 3]`.
    pub positions: [usize; 4],
}

/// Where the length of the interval that starts at a sample point comes from.
#[derive(Clone, Copy, Debug, PartialEq, Eq, Structural)]
pub enum Interval {
    /// The distance of sample `next` minus the distance of the sample itself.
    Gap { next: usize },
    /// No sample follows on the ray: [`UNBOUNDED_INTERVAL`].
    Unbounded,
}

/// Whether no dimension of the shape is zero, so that an array of that shape
/// holds at least one value. The empty shape is that of a scalar.
pub open spec fn holds_a_value(shape: Seq<u64>) -> bool {
    forall|i: int| 0 <= i < shape.len() ==> shape[i] != 0
}

/// The number of cells of a grid of rays with three channels.
pub open spec fn grid_cells(height: nat, width: nat, points_per_ray: nat) -> nat {
    height * width * points_per_ray * 3
}

/// What is wrong with the configuration itself, if anything is.
pub open spec fn spec_config_error(config: SimpleNerfDatasetConfig) -> Option<DatasetError> {
    if config.points_per_ray == 0 {
        Some(DatasetError::PointsPerRay)
    } else if double_equal(config.distance_range.start, config.distance_range.end) {
        Some(DatasetError::DistanceRange)
    } else {
        None
    }
}

/// Why no dataset can be built from arrays of these shapes, if that is so.
/// The configuration is looked at first, and the first reason that applies
/// is the one given.
pub open spec fn spec_init_error(
    config: SimpleNerfDatasetConfig,
    focal: Seq<u64>,
    images: Seq<u64>,
    poses: Seq<u64>,
) -> Option<DatasetError> {
    if spec_config_error(config) is Some {
        spec_config_error(config)
    } else if !holds_a_value(focal) {
        Some(DatasetError::Focal)
    } else if images.len() != 4 {
        Some(DatasetError::Images)
    } else if poses.len() != 3 {
        Some(DatasetError::Poses)
    } else if images[0] != poses[0] {
        Some(DatasetError::Count)
    } else if images[3] != 3 {
        Some(DatasetError::Channels)
    } else if poses[1] < 3 || poses[2] < 4 {
        Some(DatasetError::Poses)
    } else if images[0] > usize::MAX || images[1] > usize::MAX || images[2] > usize::MAX
        || grid_cells(images[1] as nat, images[2] as nat, config.points_per_ray as nat)
        > usize::MAX {
        Some(DatasetError::TooLarge)
    } else {
        None
    }
}

/// The nearer of the two configured distances.
pub open spec fn spec_near(range: Range<u64>) -> u64 {
    if double_less(range.end, range.start) {
        range.end
    } else {
        range.start
    }
}

/// The farther of the two configured distances.
pub open spec fn spec_far(range: Range<u64>) -> u64 {
    if double_less(range.end, range.start) {
        range.start
    } else {
        range.end
    }
}

/// Twice the offset of the pixel in row `row` and column `column` from the
/// centre of a `height` by `width` image, to the right and upwards. Divided
/// by twice the focal length, these are the first two components of the
/// direction in which the camera sees the pixel; the third is -1.
pub open spec fn spec_pixel_offset(height: usize, width: usize, row: usize, column: usize) -> (
    int,
    int,
) {
    (2 * column - width, height - 2 * row)
}

/// Where the interval that starts at sample `sample` gets its length: from
/// the sample after it, or, where no sample follows, from the constant.
pub open spec fn spec_interval(points_per_ray: usize, sample: usize) -> Interval {
    if sample + 1 < points_per_ray {
        Interval::Gap { next: (sample + 1) as usize }
    } else {
        Interval::Unbounded
    }
}

/// Twice the offset of a pixel from the centre of the image, to the right
/// and upwards.
pub fn pixel_offset(height: usize, width: usize, row: usize, column: usize) -> (offset: (
    i128,
    i128,
))
    ensures
        (offset.0 as int, offset.1 as int) == spec_pixel_offset(height, width, row, column),
{
    let right: i128 = 2 * (column as i128) - (width as i128);
    let up: i128 = (height as i128) - 2 * (row as i128);
    (right, up)
}

/// Where the interval that starts at sample `sample` of a ray with
/// `points_per_ray` samples gets its length.
pub fn interval(points_per_ray: usize, sample: usize) -> (source: Interval)
    ensures
        source == spec_interval(points_per_ray, sample),
{
    if points_per_ray > 0 && sample < points_per_ray - 1 {
        Interval::Gap { next: sample + 1 }
    } else {
        Interval::Unbounded
    }
}

/// The pixel in the middle of an image with an even number of rows and
/// columns lies on the optical axis: its offset from the centre is zero both
/// ways, so the camera sees it in the direction (0, 0, -1).
pub proof fn center_pixel_is_on_axis(height: usize, width: usize)
    requires
        height % 2 == 0,
        width % 2 == 0,
    ensures
        spec_pixel_offset(height, width, (height / 2) as usize, (width / 2) as usize) == (
            0int,
            0int,
        ),
{
}

/// A split loses no image and repeats none: the images for training,
/// followed by those for testing, are the images of the whole dataset, in
/// their order.
pub proof fn split_keeps_every_image(images: Seq<usize>, ratio: u32)
    ensures
        spec_share(ratio, images.len()) <= images.len(),
        images.subrange(0, spec_share(ratio, images.len()) as int) + images.subrange(
            spec_share(ratio, images.len()) as int,
            images.len() as int,
        ) == images,
        images.subrange(0, spec_share(ratio, images.len()) as int).len() + images.subrange(
            spec_share(ratio, images.len()) as int,
            images.len() as int,
        ).len() == images.len(),
{
    share_is_bounded(ratio, images.len());
    let at = spec_share(ratio, images.len()) as int;
    assert(images.subrange(0, at) + images.subrange(at, images.len() as int) =~= images);
}

/// With the ratio 1 every image is for training and none for testing.
pub proof fn ratio_one_leaves_no_test(images: Seq<usize>)
    ensures
        images.subrange(0, spec_share(0x3F80_0000, images.len()) as int) == images,
        images.subrange(
            spec_share(0x3F80_0000, images.len()) as int,
            images.len() as int,
        ) == Seq::<usize>::empty(),
{
    one_selects_all(images.len());
    assert(images.subrange(0, images.len() as int) =~= images);
    assert(images.subrange(images.len() as int, images.len() as int) =~= Seq::<usize>::empty());
}

/// With the ratio 0 every image is for testing and none for training.
pub proof fn ratio_zero_leaves_no_train(images: Seq<usize>)
    ensures
        images.subrange(0, spec_share(0, images.len()) as int) == Seq::<usize>::empty(),
        images.subrange(spec_share(0, images.len()) as int, images.len() as int) == images,
{
    zero_selects_none(images.len());
    assert(images.subrange(0, 0) =~= Seq::<usize>::empty());
    assert(images.subrange(0, images.len() as int) =~= images);
}

fn no_zero(shape: &Vec<u64>) -> (full: bool)
    ensures
        full == holds_a_value(shape@),
{
    let mut i: usize = 0;
    while i < shape.len()
        invariant
            i <= shape@.len(),
            forall|j: int| 0 <= j < i ==> shape@[j] != 0,
        decreases shape@.len() - i,
    {
        if shape[i] == 0 {
            return false;
        }
        i += 1;
    }
    true
}

/// `height * width * points_per_ray * 3`, where that can be indexed.
fn checked_grid_cells(height: usize, width: usize, points_per_ray: usize) -> (cells: Option<usize>)
    ensures
        cells is Some <==> grid_cells(height as nat, width as nat, points_per_ray as nat)
            <= usize::MAX,
        cells is Some ==> cells->Some_0 == grid_cells(
            height as nat,
            width as nat,
            points_per_ray as nat,
        ),
{
    let ghost h = height as nat;
    let ghost w = width as nat;
    let ghost p = points_per_ray as nat;
    if height == 0 || width == 0 || points_per_ray == 0 {
        assert(h * w * p * 3 == 0) by (nonlinear_arith)
            requires
                h == 0 || w == 0 || p == 0,
        ;
        return Some(0);
    }
    assert(h * w * p * 3 >= h * w && h * w * p * 3 >= h * w * p) by (nonlinear_arith)
        requires
            h >= 1,
            w >= 1,
            p >= 1,
    ;
    let pixels: usize = match height.checked_mul(width) {
        Some(pixels) => pixels,
        None => {
            return None;
        },
    };
    let samples: usize = match pixels.checked_mul(points_per_ray) {
        Some(samples) => samples,
        None => {
            return None;
        },
    };
    samples.checked_mul(3)
}

impl View for SimpleNerfDataset {
    type V = Seq<usize>;

    /// The images of the dataset, in order, each by its index in the source
    /// arrays.
    closed spec fn view(&self) -> Seq<usize> {
        self.inners@
    }
}

impl SimpleNerfDatasetConfig {
    /// Looks at the configuration before any data is read: a ray needs at
    /// least one point, and the two distances must differ. Where both hold,
    /// the distances come back with the nearer one first.
    pub fn check(&self) -> (result: Result<Range<u64>, DatasetError>)
        ensures
            match spec_config_error(*self) {
                Some(error) => result == Err::<Range<u64>, DatasetError>(error),
                None => result is Ok && result->Ok_0.start == spec_near(self.distance_range)
                    && result->Ok_0.end == spec_far(self.distance_range),
            },
    {
        if self.points_per_ray == 0 {
            return Err(DatasetError::PointsPerRay);
        }
        if doubles_equal(self.distance_range.start, self.distance_range.end) {
            return Err(DatasetError::DistanceRange);
        }
        if double_is_less(self.distance_range.end, self.distance_range.start) {
            Ok(self.distance_range.end..self.distance_range.start)
        } else {
            Ok(self.distance_range.start..self.distance_range.end)
        }
    }

    /// Builds the dataset of a scene from the shapes of its three arrays:
    /// the focal length, the images `[count, height, width, 3]` and the
    /// poses `[count, rows, columns]`, of which the leading 3 by 4 block is
    /// read. The dataset holds every image, in order, without noise.
    pub fn init_from_arrays(&self, focal: &Vec<u64>, images: &Vec<u64>, poses: &Vec<u64>) -> (result:
        Result<SimpleNerfDataset, DatasetError>)
        ensures
            match spec_init_error(*self, focal@, images@, poses@) {
                Some(error) => result == Err::<SimpleNerfDataset, DatasetError>(error),
                None => result is Ok && {
                    let dataset = result->Ok_0;
                    &&& dataset@ == Seq::new(images@[0] as nat, |i: int| i as usize)
                    &&& dataset.spec_height() == images@[1]
                    &&& dataset.spec_width() == images@[2]
                    &&& dataset.spec_points_per_ray() == self.points_per_ray
                    &&& dataset.spec_near() == spec_near(self.distance_range)
                    &&& dataset.spec_far() == spec_far(self.distance_range)
                    &&& !dataset.spec_has_noisy_distance()
                },
            },
    {
        let range: Range<u64> = match self.check() {
            Ok(range) => range,
            Err(error) => {
                return Err(error);
            },
        };
        let near: u64 = range.start;
        let far: u64 = range.end;
        if !no_zero(focal) {
            return Err(DatasetError::Focal);
        }
        if images.len() != 4 {
            return Err(DatasetError::Images);
        }
        if poses.len() != 3 {
            return Err(DatasetError::Poses);
        }
        if images[0] != poses[0] {
            return Err(DatasetError::Count);
        }
        if images[3] != 3 {
            return Err(DatasetError::Channels);
        }
        if poses[1] < 3 || poses[2] < 4 {
            return Err(DatasetError::Poses);
        }
        if images[0] > usize::MAX as u64 || images[1] > usize::MAX as u64 || images[2]
            > usize::MAX as u64 {
            return Err(DatasetError::TooLarge);
        }
        let count: usize = images[0] as usize;
        let height: usize = images[1] as usize;
        let width: usize = images[2] as usize;
        if checked_grid_cells(height, width, self.points_per_ray).is_none() {
            return Err(DatasetError::TooLarge);
        }
        let mut inners: Vec<usize> = Vec::new();
        let mut index: usize = 0;
        while index < count
            invariant
                index <= count,
                inners@ =~= Seq::new(index as nat, |i: int| i as usize),
            decreases count - index,
        {
            inners.push(index);
            index += 1;
        }
        Ok(
            SimpleNerfDataset {
                height,
                width,
                points_per_ray: self.points_per_ray,
                near,
                far,
                inners,
                has_noisy_distance: false,
            },
        )
    }
}

impl Clone for SimpleNerfDataset {
    fn clone(&self) -> (copy: Self)
        ensures
            copy@ == self@,
            copy.same_geometry(*self),
            copy.spec_has_noisy_distance() == self.spec_has_noisy_distance(),
    {
        proof {
            use_type_invariant(self);
        }
        SimpleNerfDataset {
            height: self.height,
            width: self.width,
            points_per_ray: self.points_per_ray,
            near: self.near,
            far: self.far,
            inners: self.inners.clone(),
            has_noisy_distance: self.has_noisy_distance,
        }
    }
}

impl SimpleNerfDataset {
    #[verifier::type_invariant]
    spec fn well_formed(self) -> bool {
        &&& self.points_per_ray >= 1
        &&& grid_cells(self.height as nat, self.width as nat, self.points_per_ray as nat)
            <= usize::MAX
    }

    /// Number of pixel rows of every image.
    pub closed spec fn spec_height(self) -> usize {
        self.height
    }

    /// Number of pixel columns of every image.
    pub closed spec fn spec_width(self) -> usize {
        self.width
    }

    /// Number of sample points on every ray.
    pub closed spec fn spec_points_per_ray(self) -> usize {
        self.points_per_ray
    }

    /// The distance of the first sample point, as a bit pattern.
    pub closed spec fn spec_near(self) -> u64 {
        self.near
    }

    /// The distance that bounds the sample points, as a bit pattern.
    pub closed spec fn spec_far(self) -> u64 {
        self.far
    }

    /// Whether items come with perturbed sample distances.
    pub closed spec fn spec_has_noisy_distance(self) -> bool {
        self.has_noisy_distance
    }

    /// Whether `other` looks at the scene through the same grid of rays.
    pub open spec fn same_geometry(self, other: SimpleNerfDataset) -> bool {
        &&& self.spec_height() == other.spec_height()
        &&& self.spec_width() == other.spec_width()
        &&& self.spec_points_per_ray() == other.spec_points_per_ray()
        &&& self.spec_near() == other.spec_near()
        &&& self.spec_far() == other.spec_far()
    }

    /// The item at `index`, if there is one.
    pub open spec fn spec_get(self, index: usize) -> Option<SimpleNerfData> {
        if index < self@.len() {
            Some(
                SimpleNerfData {
                    index: self@[index as int],
                    has_noisy_distance: self.spec_has_noisy_distance(),
                    directions: [
                        self.spec_height(),
                        self.spec_width(),
                        self.spec_points_per_ray(),
                        3,
                    ],
                    image: [self.spec_height(), self.spec_width(), 3],
                    intervals: [
                        self.spec_height(),
                        self.spec_width(),
                        self.spec_points_per_ray(),
                        1,
                    ],
                    positions: [
                        self.spec_height(),
                        self.spec_width(),
                        self.spec_points_per_ray(),
                        3,
                    ],
                },
            )
        } else {
            None
        }
    }

    /// Number of pixel rows of every image.
    pub fn height(&self) -> (height: usize)
        ensures
            height == self.spec_height(),
    {
        self.height
    }

    /// Number of pixel columns of every image.
    pub fn width(&self) -> (width: usize)
        ensures
            width == self.spec_width(),
    {
        self.width
    }

    /// Number of sample points on every ray, which is never zero.
    pub fn points_per_ray(&self) -> (points: usize)
        ensures
            points == self.spec_points_per_ray(),
            points >= 1,
    {
        proof {
            use_type_invariant(self);
        }
        self.points_per_ray
    }

    /// The distances between which the sample points lie, nearer one first
    /// wherever the two can be ordered, as bit patterns.
    pub fn distance_range(&self) -> (range: Range<u64>)
        ensures
            range.start == self.spec_near(),
            range.end == self.spec_far(),
    {
        self.near..self.far
    }

    /// Whether items come with perturbed sample distances.
    pub fn has_noisy_distance(&self) -> (noisy: bool)
        ensures
            noisy == self.spec_has_noisy_distance(),
    {
        self.has_noisy_distance
    }

    /// Number of images.
    pub fn len(&self) -> (len: usize)
        ensures
            len == self@.len(),
    {
        self.inners.len()
    }

    /// The item at `index`, or nothing where the dataset has no such item.
    pub fn get(&self, index: usize) -> (item: Option<SimpleNerfData>)
        ensures
            item == self.spec_get(index),
            item is Some <==> index < self@.len(),
            item is Some ==> spec_forward_error(
                self.spec_points_per_ray(),
                item->Some_0.directions,
                item->Some_0.intervals,
                item->Some_0.positions,
            ) is None,
    {
        proof {
            use_type_invariant(self);
        }
        if index >= self.inners.len() {
            return None;
        }
        Some(
            SimpleNerfData {
                index: self.inners[index],
                has_noisy_distance: self.has_noisy_distance,
                directions: [self.height, self.width, self.points_per_ray, 3],
                image: [self.height, self.width, 3],
                intervals: [self.height, self.width, self.points_per_ray, 1],
                positions: [self.height, self.width, self.points_per_ray, 3],
            },
        )
    }

    /// Cuts the dataset in two. The leading images, as many as `ratio`
    /// selects of all of them, are for training, and come with noise; the
    /// others are for testing, and come without. `ratio` is the bit pattern
    /// of a single-precision number.
    pub fn split_for_training(self, ratio: u32) -> (split: SimpleNerfDatasetSplit)
        ensures
            split.train@ == self@.subrange(0, spec_share(ratio, self@.len()) as int),
            split.test@ == self@.subrange(
                spec_share(ratio, self@.len()) as int,
                self@.len() as int,
            ),
            split.train@.len() + split.test@.len() == self@.len(),
            split.train.spec_has_noisy_distance(),
            !split.test.spec_has_noisy_distance(),
            split.train.same_geometry(self),
            split.test.same_geometry(self),
    {
        proof {
            use_type_invariant(&self);
        }
        let at: usize = share(ratio, self.inners.len());
        let mut leading: Vec<usize> = self.inners;
        let trailing: Vec<usize> = leading.split_off(at);
        let test = SimpleNerfDataset {
            height: self.height,
            width: self.width,
            points_per_ray: self.points_per_ray,
            near: self.near,
            far: self.far,
            inners: trailing,
            has_noisy_distance: false,
        };
        let train = SimpleNerfDataset {
            height: self.height,
            width: self.width,
            points_per_ray: self.points_per_ray,
            near: self.near,
            far: self.far,
            inners: leading,
            has_noisy_distance: true,
        };
        SimpleNerfDatasetSplit { test, train }
    }
}

} // verus!
