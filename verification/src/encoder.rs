//! Positional encoding: which feature stands in which column.
use vstd::prelude::*;
use crate::error::ConfigError;

verus! {

/// What one column of an encoded batch holds, as a function of the raw
/// coordinate `x` in column `channel` of the input.
#[derive(Clone, Copy, Debug, PartialEq, Eq, Structural)]
pub enum Feature {
    /// `x` itself.
    Identity { channel: usize },
    /// `sin(2^level * pi * x)`.
    Sine { channel: usize, level: usize },
    /// `sin(2^level * pi * x + pi / 2)`, the cosine at the same frequency.
    Cosine { channel: usize, level: usize },
}

/// How many frequency levels the encoder adds to each coordinate.
#[derive(Clone, Copy, Debug)]
pub struct PositionalEncoderConfig {
    pub encoding_factor: usize,
}

/// An encoder with at least one frequency level.
#[derive(Clone, Copy, Debug)]
pub struct PositionalEncoder {
    encoding_factor: usize,
}

/// Width of the encoding of `input_size` coordinates: each coordinate is
/// kept, and gains a sine and a cosine per level.
pub open spec fn spec_output_size(encoding_factor: nat, input_size: nat) -> nat {
    input_size * (2 * encoding_factor + 1)
}

/// The feature in column `column` of the encoding of `input_size`
/// coordinates. Columns are grouped by kind, not by coordinate: first every
/// raw coordinate, then the sine of every coordinate at level 0, then the
/// cosine of every coordinate at level 0, then level 1, and so on.
pub open spec fn spec_feature(input_size: nat, column: nat) -> Feature
    recommends
        input_size > 0,
{
    let group = column / input_size;
    let channel = (column % input_size) as usize;
    if group == 0 {
        Feature::Identity { channel }
    } else if (group - 1) % 2 == 0 {
        Feature::Sine { channel, level: ((group - 1) / 2) as usize }
    } else {
        Feature::Cosine { channel, level: ((group - 1) / 2) as usize }
    }
}

/// Each coordinate has its `2 * encoding_factor + 1` columns, one in each
/// group: the column of coordinate `channel` in group `group` is
/// `group * input_size + channel`. It lies within the encoding, and holds
/// the coordinate itself in group 0, and after that the sine and the cosine
/// of one level after the other.
pub proof fn column_of_coordinate(
    encoding_factor: nat,
    input_size: nat,
    channel: nat,
    group: nat,
)
    requires
        channel < input_size <= usize::MAX,
        group < 2 * encoding_factor + 1,
    ensures
        group * input_size + channel < spec_output_size(encoding_factor, input_size),
        spec_feature(input_size, group * input_size + channel) == if group == 0 {
            Feature::Identity { channel: channel as usize }
        } else if (group - 1) % 2 == 0 {
            Feature::Sine { channel: channel as usize, level: ((group - 1) / 2) as usize }
        } else {
            Feature::Cosine { channel: channel as usize, level: ((group - 1) / 2) as usize }
        },
{
    let column = group * input_size + channel;
    assert(column < input_size * (2 * encoding_factor + 1)) by (nonlinear_arith)
        requires
            column == group * input_size + channel,
            channel < input_size,
            group < 2 * encoding_factor + 1,
    ;
    assert(column / input_size == group && column % input_size == channel) by (nonlinear_arith)
        requires
            column == group * input_size + channel,
            channel < input_size,
    ;
}

impl PositionalEncoderConfig {
    /// Builds the encoder, or refuses a configuration without any level.
    pub fn init(&self) -> (result: Result<PositionalEncoder, ConfigError>)
        ensures
            self.encoding_factor == 0 <==> result == Err::<PositionalEncoder, ConfigError>(
                ConfigError::EncodingFactor,
            ),
            self.encoding_factor != 0 ==> result is Ok && result->Ok_0.levels()
                == self.encoding_factor,
    {
        if self.encoding_factor == 0 {
            return Err(ConfigError::EncodingFactor);
        }
        Ok(PositionalEncoder { encoding_factor: self.encoding_factor })
    }

    /// Width of the encoding of `input_size` coordinates.
    pub fn get_output_size(&self, input_size: usize) -> (size: usize)
        requires
            spec_output_size(self.encoding_factor as nat, input_size as nat) <= usize::MAX,
        ensures
            size == spec_output_size(self.encoding_factor as nat, input_size as nat),
    {
        output_size(self.encoding_factor, input_size)
    }
}

/// `input_size * (2 * encoding_factor + 1)`, where that fits.
fn output_size(encoding_factor: usize, input_size: usize) -> (size: usize)
    requires
        spec_output_size(encoding_factor as nat, input_size as nat) <= usize::MAX,
    ensures
        size == spec_output_size(encoding_factor as nat, input_size as nat),
        input_size == 0 ==> size == 0,
{
    if input_size == 0 {
        assert(0 * (2 * (encoding_factor as nat) + 1) == 0) by (nonlinear_arith);
        return 0;
    }
    assert(2 * encoding_factor + 1 <= input_size * (2 * encoding_factor + 1))
        by (nonlinear_arith)
        requires
            input_size >= 1,
    ;
    input_size * (2 * encoding_factor + 1)
}

impl PositionalEncoder {
    #[verifier::type_invariant]
    spec fn well_formed(self) -> bool {
        self.encoding_factor >= 1
    }

    /// The number of frequency levels.
    pub closed spec fn levels(self) -> nat {
        self.encoding_factor as nat
    }

    /// The number of frequency levels, which is never zero.
    pub fn encoding_factor(&self) -> (levels: usize)
        ensures
            levels == self.levels(),
            levels >= 1,
    {
        proof {
            use_type_invariant(self);
        }
        self.encoding_factor
    }

    /// Lays out the encoding of a batch with `input_size` coordinates per
    /// row: element `j` of the result says what column `j` of the encoded
    /// batch holds.
    pub fn forward(&self, input_size: usize) -> (features: Vec<Feature>)
        requires
            spec_output_size(self.levels(), input_size as nat) <= usize::MAX,
        ensures
            features@.len() == spec_output_size(self.levels(), input_size as nat),
            forall|j: int|
                0 <= j < features@.len() ==> features@[j] == spec_feature(
                    input_size as nat,
                    j as nat,
                ),
    {
        let width: usize = output_size(self.encoding_factor, input_size);
        let mut features: Vec<Feature> = Vec::new();
        let mut column: usize = 0;
        while column < width
            invariant
                column <= width,
                input_size == 0 ==> width == 0,
                features@.len() == column,
                forall|j: int|
                    0 <= j < column ==> features@[j] == spec_feature(input_size as nat, j as nat),
            decreases width - column,
        {
            let group: usize = column / input_size;
            let channel: usize = column % input_size;
            let feature = if group == 0 {
                Feature::Identity { channel }
            } else if (group - 1) % 2 == 0 {
                Feature::Sine { channel, level: (group - 1) / 2 }
            } else {
                Feature::Cosine { channel, level: (group - 1) / 2 }
            };
            features.push(feature);
            column += 1;
        }
        features
    }
}

} // verus!
