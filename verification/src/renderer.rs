//! The volume renderer: how the samples of an image reach the scene network
//! in chunks, and what comes back.
use vstd::prelude::*;
use crate::dataset::grid_cells;
use crate::error::{ConfigError, ShapeError};
use crate::ieee::round_div;
use crate::scene::{VolumetricScene, VolumetricSceneConfig, spec_init_error};

verus! {

/// A scene network, and how its work is cut up.
#[derive(Clone, Copy, Debug)]
pub struct VolumeRendererConfig {
    pub scene: VolumetricSceneConfig,
    /// Number of sample points on each ray.
    pub points_per_ray: usize,
    /// About how many samples the network is given at a time. This bounds
    /// the memory that a call needs and changes nothing in its result.
    pub chunk_size: usize,
}

/// A renderer whose rays carry at least one point and whose chunks hold at
/// least one sample.
#[derive(Debug)]
pub struct VolumeRenderer {
    scene: VolumetricScene,
    points_per_ray: usize,
    chunk_size: usize,
}

/// The samples `start..end` of an image, counted ray after ray.
#[derive(Clone, Copy, Debug, PartialEq, Eq, Structural)]
pub struct Chunk {
    pub start: usize,
    pub end: usize,
}

/// What a call of the renderer does, as far as shapes go.
#[derive(Debug, PartialEq, Eq)]
pub struct Rendering {
    /// `[height, width, 3]`: the rendered image.
    pub image: [usize; 3],
    /// The chunks in which the samples went through the scene network, in
    /// order.
    pub chunks: Vec<Chunk>,
}

/// Into how many chunks `total` samples are to be cut: `total / chunk_size`
/// rounded to the nearest integer, and one where that is zero.
pub open spec fn spec_chunk_count(total: nat, chunk_size: nat) -> nat
    recommends
        chunk_size > 0,
{
    if round_div(total, chunk_size) == 0 {
        1
    } else {
        round_div(total, chunk_size)
    }
}

/// How many samples each chunk but the last holds, so that
/// `spec_chunk_count` chunks are enough: `total / count`, rounded up.
pub open spec fn spec_chunk_len(total: nat, chunk_size: nat) -> nat
    recommends
        chunk_size > 0,
{
    let count = spec_chunk_count(total, chunk_size);
    ((total + count - 1) / (count as int)) as nat
}

/// The chunk with index `k` among chunks of `len` samples.
pub open spec fn spec_chunk(total: nat, len: nat, k: nat) -> Chunk {
    Chunk {
        start: (k * len) as usize,
        end: if (k + 1) * len <= total {
            ((k + 1) * len) as usize
        } else {
            total as usize
        },
    }
}

/// `total` samples in chunks of `len`: as many full chunks as there are,
/// and one more for the samples that are left.
pub open spec fn spec_chunks(total: nat, len: nat) -> Seq<Chunk> {
    if len == 0 {
        Seq::empty()
    } else {
        Seq::new(((total + len - 1) / (len as int)) as nat, |k: int| spec_chunk(total, len, k as nat))
    }
}

/// Why the renderer refuses tensors of these shapes, if it does. The first
/// reason that applies is the one given.
pub open spec fn spec_forward_error(
    points_per_ray: usize,
    directions: [usize; 4],
    intervals: [usize; 4],
    positions: [usize; 4],
) -> Option<ShapeError> {
    if directions[2] != points_per_ray {
        Some(ShapeError::PointsPerRay)
    } else if directions[3] != 3 || positions[0] != directions[0] || positions[1] != directions[1]
        || positions[2] != directions[2] || positions[3] != 3 || intervals[0] != directions[0]
        || intervals[1] != directions[1] || intervals[2] != directions[2] || intervals[3] != 1 {
        Some(ShapeError::Grid)
    } else if grid_cells(directions[0] as nat, directions[1] as nat, directions[2] as nat)
        > usize::MAX {
        Some(ShapeError::TooLarge)
    } else {
        None
    }
}

/// Why no renderer can be built from the configuration, if that is so.
pub open spec fn spec_renderer_error(config: VolumeRendererConfig) -> Option<ConfigError> {
    if config.points_per_ray == 0 {
        Some(ConfigError::PointsPerRay)
    } else if config.chunk_size == 0 {
        Some(ConfigError::ChunkSize)
    } else {
        spec_init_error(config.scene)
    }
}

proof fn chunk_count_of(total: nat, len: nat, k: nat)
    requires
        len > 0,
    ensures
        k * len < total ==> k < (total + len - 1) / (len as int),
        k * len >= total ==> (total + len - 1) / (len as int) <= k,
        (k + 1) * len == k * len + len,
{
    assert((k + 1) * len == k * len + len) by (nonlinear_arith);
    if k * len < total {
        assert(k < (total + len - 1) / (len as int)) by (nonlinear_arith)
            requires
                k * len < total,
                len > 0,
        ;
    } else {
        assert((total + len - 1) / (len as int) <= k) by (nonlinear_arith)
            requires
                k * len >= total,
                len > 0,
        ;
    }
}

/// The chunks lie end to end: the first starts at sample 0, each next one
/// starts where the one before it ends, and the last ends at the last
/// sample. None is empty and none holds more than `len` samples.
pub proof fn chunks_lie_end_to_end(total: nat, len: nat, k: nat)
    requires
        len > 0,
        total <= usize::MAX,
        k < spec_chunks(total, len).len(),
    ensures
        spec_chunks(total, len)[0].start == 0,
        spec_chunks(total, len)[k as int].start < spec_chunks(total, len)[k as int].end,
        spec_chunks(total, len)[k as int].end - spec_chunks(total, len)[k as int].start <= len,
        k + 1 < spec_chunks(total, len).len() ==> spec_chunks(total, len)[k as int].end
            == spec_chunks(total, len)[k as int + 1].start,
        k + 1 == spec_chunks(total, len).len() ==> spec_chunks(total, len)[k as int].end
            == total,
{
    let count = ((total + len - 1) / (len as int)) as nat;
    chunk_count_of(total, len, k);
    chunk_count_of(total, len, k + 1);
    assert(0 * len == 0) by (nonlinear_arith);
    assert(k * len < total);
    if k + 1 < count {
        assert((k + 1) * len < total);
    }
}

/// Every sample is in one chunk and in no other: sample `i` is in the chunk
/// with index `i / len`. So what is computed sample by sample and put back
/// chunk after chunk stands where it would stand had all samples been
/// handed over at once, whatever the chunk size.
pub proof fn sample_is_in_one_chunk(total: nat, len: nat, i: nat, k: nat)
    requires
        len > 0,
        i < total <= usize::MAX,
        k < spec_chunks(total, len).len(),
    ensures
        i / len < spec_chunks(total, len).len(),
        (spec_chunks(total, len)[k as int].start <= i < spec_chunks(total, len)[k as int].end)
            <==> k == i / len,
{
    let home = i / len;
    assert(home * len <= i < (home + 1) * len) by (nonlinear_arith)
        requires
            home == i / len,
            len > 0,
    ;
    chunk_count_of(total, len, home);
    chunk_count_of(total, len, k);
    assert(k * len < total);
    if k < home {
        assert((k + 1) * len <= home * len) by (nonlinear_arith)
            requires
                k < home,
                len > 0,
        ;
    } else if k > home {
        assert((home + 1) * len <= k * len) by (nonlinear_arith)
            requires
                k > home,
                len > 0,
        ;
    }
}

/// With a chunk size of all the samples there is one chunk, which holds
/// them all.
pub proof fn whole_image_is_one_chunk(total: nat)
    requires
        0 < total <= usize::MAX,
    ensures
        spec_chunk_len(total, total) == total,
        spec_chunks(total, total) =~= seq![Chunk { start: 0, end: total as usize }],
{
    assert(round_div(total, total) == 1) by (nonlinear_arith)
        requires
            total > 0,
            round_div(total, total) == (2 * total + total) / (2 * total),
    ;
    assert((total + total - 1) / (total as int) == 1) by (nonlinear_arith)
        requires
            total > 0,
    ;
    assert(0 * total == 0 && (0 + 1) * total == total) by (nonlinear_arith);
}

/// With a chunk size of one sample every sample is a chunk of its own.
pub proof fn unit_chunks_hold_one_sample(total: nat, k: nat)
    requires
        k < total <= usize::MAX,
    ensures
        spec_chunk_len(total, 1) == 1,
        spec_chunks(total, 1).len() == total,
        spec_chunks(total, 1)[k as int] == (Chunk { start: k as usize, end: (k + 1) as usize }),
{
    assert(round_div(total, 1) == total) by (nonlinear_arith)
        requires
            round_div(total, 1) == (2 * total + 1) / (2 * 1),
    ;
    assert((total + total - 1) / (total as int) == 1) by (nonlinear_arith)
        requires
            total > 0,
    ;
    assert(k * 1 == k && (k + 1) * 1 == k + 1) by (nonlinear_arith);
}

impl VolumeRendererConfig {
    /// Builds the renderer, or says why the configuration allows none.
    pub fn init(&self) -> (result: Result<VolumeRenderer, ConfigError>)
        ensures
            match spec_renderer_error(*self) {
                Some(error) => result == Err::<VolumeRenderer, ConfigError>(error),
                None => result is Ok && {
                    let renderer = result->Ok_0;
                    &&& renderer.spec_points_per_ray() == self.points_per_ray
                    &&& renderer.spec_chunk_size() == self.chunk_size
                    &&& renderer.spec_scene().spec_encoder().levels()
                        == self.scene.input_encoder.encoding_factor
                    &&& renderer.spec_scene().spec_hidden_size() == self.scene.hidden_size
                },
            },
    {
        if self.points_per_ray == 0 {
            return Err(ConfigError::PointsPerRay);
        }
        if self.chunk_size == 0 {
            return Err(ConfigError::ChunkSize);
        }
        match self.scene.init() {
            Ok(scene) => Ok(
                VolumeRenderer {
                    scene,
                    points_per_ray: self.points_per_ray,
                    chunk_size: self.chunk_size,
                },
            ),
            Err(error) => Err(error),
        }
    }
}

/// The number of samples of a chunk: `total / count` rounded up, where
/// `count` is `total / chunk_size` rounded to the nearest integer, or one.
fn chunk_len(total: usize, chunk_size: usize) -> (len: usize)
    requires
        chunk_size > 0,
    ensures
        len == spec_chunk_len(total as nat, chunk_size as nat),
        len <= total,
        total > 0 ==> len > 0,
{
    let rounded: u128 = (2 * (total as u128) + (chunk_size as u128)) / (2 * (chunk_size as u128));
    let count: u128 = if rounded == 0 {
        1
    } else {
        rounded
    };
    assert(rounded <= total) by (nonlinear_arith)
        requires
            rounded == (2 * (total as int) + (chunk_size as int)) / (2 * (chunk_size as int)),
            chunk_size > 0,
            total >= 0,
    ;
    let len: u128 = ((total as u128) + count - 1) / count;
    assert(len <= total && (total > 0 ==> len > 0)) by (nonlinear_arith)
        requires
            len == ((total as int) + (count as int) - 1) / (count as int),
            count >= 1,
            total >= 0,
            count <= total || total == 0 || count == 1,
    ;
    len as usize
}

impl Clone for VolumeRenderer {
    fn clone(&self) -> (copy: Self)
        ensures
            copy.spec_points_per_ray() == self.spec_points_per_ray(),
            copy.spec_chunk_size() == self.spec_chunk_size(),
            copy.spec_scene().spec_encoder() == self.spec_scene().spec_encoder(),
            copy.spec_scene().spec_hidden_size() == self.spec_scene().spec_hidden_size(),
    {
        proof {
            use_type_invariant(self);
        }
        VolumeRenderer {
            scene: self.scene.clone(),
            points_per_ray: self.points_per_ray,
            chunk_size: self.chunk_size,
        }
    }
}

impl VolumeRenderer {
    #[verifier::type_invariant]
    spec fn well_formed(self) -> bool {
        self.points_per_ray > 0 && self.chunk_size > 0
    }

    /// The scene network.
    pub closed spec fn spec_scene(self) -> VolumetricScene {
        self.scene
    }

    /// Number of sample points on each ray.
    pub closed spec fn spec_points_per_ray(self) -> usize {
        self.points_per_ray
    }

    /// About how many samples the network is given at a time.
    pub closed spec fn spec_chunk_size(self) -> usize {
        self.chunk_size
    }

    /// The scene network.
    pub fn scene(&self) -> (scene: &VolumetricScene)
        ensures
            *scene == self.spec_scene(),
    {
        &self.scene
    }

    /// Number of sample points on each ray, which is never zero.
    pub fn points_per_ray(&self) -> (points: usize)
        ensures
            points == self.spec_points_per_ray(),
            points > 0,
    {
        proof {
            use_type_invariant(self);
        }
        self.points_per_ray
    }

    /// About how many samples the network is given at a time, which is
    /// never zero.
    pub fn chunk_size(&self) -> (size: usize)
        ensures
            size == self.spec_chunk_size(),
            size > 0,
    {
        proof {
            use_type_invariant(self);
        }
        self.chunk_size
    }

    /// Renders an image, as far as shapes go. `directions` and `positions`
    /// are `[height, width, points_per_ray, 3]` and `intervals` is
    /// `[height, width, points_per_ray, 1]`. The samples are laid out ray
    /// after ray and go through the scene network chunk after chunk; what
    /// comes back is put together again and summed along each ray.
    pub fn forward(&self, directions: [usize; 4], intervals: [usize; 4], positions: [
        usize;
        4
    ]) -> (result: Result<Rendering, ShapeError>)
        ensures
            match spec_forward_error(
                self.spec_points_per_ray(),
                directions,
                intervals,
                positions,
            ) {
                Some(error) => result == Err::<Rendering, ShapeError>(error),
                None => result is Ok && {
                    let rendering = result->Ok_0;
                    let total = (directions[0] * directions[1] * directions[2]) as nat;
                    &&& rendering.image@ == seq![directions[0], directions[1], 3usize]
                    &&& rendering.chunks@ == spec_chunks(
                        total,
                        spec_chunk_len(total, self.spec_chunk_size() as nat),
                    )
                },
            },
    {
        proof {
            use_type_invariant(self);
        }
        if directions[2] != self.points_per_ray {
            return Err(ShapeError::PointsPerRay);
        }
        if directions[3] != 3 || positions[0] != directions[0] || positions[1] != directions[1]
            || positions[2] != directions[2] || positions[3] != 3 || intervals[0] != directions[0]
            || intervals[1] != directions[1] || intervals[2] != directions[2] || intervals[3]
            != 1 {
            return Err(ShapeError::Grid);
        }
        let height: usize = directions[0];
        let width: usize = directions[1];
        let total: usize = match sample_count(height, width, self.points_per_ray) {
            Some(total) => total,
            None => {
                return Err(ShapeError::TooLarge);
            },
        };
        let len: usize = chunk_len(total, self.chunk_size);
        let ghost planned = spec_chunks(total as nat, len as nat);
        let mut chunks: Vec<Chunk> = Vec::new();
        let mut rows: usize = 0;
        while rows < total
            invariant
                len <= total,
                total > 0 ==> len > 0,
                rows <= total,
                planned == spec_chunks(total as nat, len as nat),
                chunks@.len() <= planned.len(),
                rows < total ==> rows == chunks@.len() * len,
                rows == total ==> chunks@.len() * len >= total,
                forall|k: int| 0 <= k < chunks@.len() ==> chunks@[k] == planned[k],
            decreases total - rows,
        {
            let ghost k = chunks@.len();
            proof {
                chunk_count_of(total as nat, len as nat, k);
                chunk_count_of(total as nat, len as nat, k + 1);
            }
            let end: usize = if total - rows > len {
                rows + len
            } else {
                total
            };
            let answer = self.scene.forward([end - rows, 3], [end - rows, 3]);
            assert(answer is Ok);
            let answer = answer.unwrap();
            chunks.push(Chunk { start: rows, end });
            rows = rows + answer.colors[0];
        }
        proof {
            if total == 0 {
                assert(planned.len() == 0);
            } else {
                chunk_count_of(total as nat, len as nat, chunks@.len());
            }
            assert(chunks@ =~= planned);
        }
        Ok(Rendering { image: [height, width, 3], chunks })
    }
}

/// `height * width * points_per_ray`, where three channels of that many
/// samples can be indexed.
fn sample_count(height: usize, width: usize, points_per_ray: usize) -> (total: Option<usize>)
    ensures
        total is Some <==> grid_cells(height as nat, width as nat, points_per_ray as nat)
            <= usize::MAX,
        total is Some ==> total->Some_0 == height * width * points_per_ray,
{
    let ghost h = height as nat;
    let ghost w = width as nat;
    let ghost p = points_per_ray as nat;
    if height == 0 || width == 0 || points_per_ray == 0 {
        assert(h * w * p == 0 && h * w * p * 3 == 0) by (nonlinear_arith)
            requires
                h == 0 || w == 0 || p == 0,
        ;
        return Some(0);
    }
    assert(h * w * p * 3 >= h * w && h * w * p * 3 >= h * w * p) by (nonlinear_arith)
        requires
            h >= 1,
            w >= 1,
            p >= 1,
    ;
    let pixels: usize = match height.checked_mul(width) {
        Some(pixels) => pixels,
        None => {
            return None;
        },
    };
    let samples: usize = match pixels.checked_mul(points_per_ray) {
        Some(samples) => samples,
        None => {
            return None;
        },
    };
    match samples.checked_mul(3) {
        Some(_) => Some(samples),
        None => None,
    }
}

} // verus!
