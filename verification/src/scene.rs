//! The scene network: a stack of fully-connected layers over encoded
//! coordinates, with one skip connection and two heads.
use vstd::prelude::*;
use crate::encoder::{PositionalEncoder, PositionalEncoderConfig, spec_output_size};
use crate::error::{ConfigError, ShapeError};

verus! {

/// Number of raw coordinates of a sample: a direction and a position.
pub const COORDINATES: usize = 6;

/// Number of hidden layers.
pub const DEPTH: usize = 8;

/// Index of the hidden layer whose input is joined with the encoded
/// coordinates once more.
pub const SKIP_INDEX: usize = 5;

/// How wide the hidden layers are, and how coordinates are encoded.
#[derive(Clone, Copy, Debug)]
pub struct VolumetricSceneConfig {
    pub hidden_size: usize,
    pub input_encoder: PositionalEncoderConfig,
}

/// The widths of a fully-connected layer.
#[derive(Clone, Copy, Debug, PartialEq, Eq, Structural)]
pub struct Linear {
    pub d_input: usize,
    pub d_output: usize,
}

/// The layers of a scene network, each by its widths.
#[derive(Debug)]
pub struct VolumetricScene {
    input_encoder: PositionalEncoder,
    hidden_layers: Vec<Linear>,
    output_layer_colors: Linear,
    output_layer_opacities: Linear,
    skip_indexs: Vec<usize>,
}

/// The shapes of what the network says of a batch of samples.
#[derive(Clone, Copy, Debug, PartialEq, Eq)]
pub struct VolumetricSceneOutput {
    /// `[samples, 3]`: a colour for each sample.
    pub colors: [usize; 2],
    /// `[samples, 1]`: a density for each sample.
    pub opacities: [usize; 2],
}

/// The hidden layers of a network over `encoded` features with hidden width
/// `hidden`. The layer at [`SKIP_INDEX`] is wider at its input, by the
/// encoded features that are joined to what the layer before it gives.
pub open spec fn spec_hidden_layers(encoded: usize, hidden: usize) -> Seq<Linear> {
    seq![
        Linear { d_input: encoded, d_output: hidden },
        Linear { d_input: hidden, d_output: hidden },
        Linear { d_input: hidden, d_output: hidden },
        Linear { d_input: hidden, d_output: hidden },
        Linear { d_input: hidden, d_output: hidden },
        Linear { d_input: (hidden + encoded) as usize, d_output: hidden },
        Linear { d_input: hidden, d_output: hidden },
        Linear { d_input: hidden, d_output: hidden },
    ]
}

/// The width of the features that reach hidden layer `index`: those of the
/// layer before it, or the encoded coordinates for the first layer, and the
/// encoded coordinates once more where `index` is a skip index.
pub open spec fn spec_fed_width(
    layers: Seq<Linear>,
    skips: Seq<usize>,
    encoded: usize,
    index: int,
) -> int
    recommends
        0 <= index < layers.len(),
{
    let carried = if index == 0 {
        encoded
    } else {
        layers[index - 1].d_output
    };
    if skips.contains(index as usize) {
        carried + encoded
    } else {
        carried as int
    }
}

/// Why no network can be built from the configuration, if that is so.
pub open spec fn spec_init_error(config: VolumetricSceneConfig) -> Option<ConfigError> {
    if config.input_encoder.encoding_factor == 0 {
        Some(ConfigError::EncodingFactor)
    } else if spec_output_size(config.input_encoder.encoding_factor as nat, COORDINATES as nat)
        + config.hidden_size > usize::MAX {
        Some(ConfigError::TooLarge)
    } else {
        None
    }
}

/// Every hidden layer is as wide at its input as the features that reach
/// it, so the stack can be run from the first layer to the last.
pub proof fn hidden_layers_fit(encoded: usize, hidden: usize, index: int)
    requires
        encoded + hidden <= usize::MAX,
        0 <= index < DEPTH,
    ensures
        spec_hidden_layers(encoded, hidden).len() == DEPTH,
        spec_hidden_layers(encoded, hidden)[index].d_input == spec_fed_width(
            spec_hidden_layers(encoded, hidden),
            seq![SKIP_INDEX],
            encoded,
            index,
        ),
{
    let skips = seq![SKIP_INDEX];
    assert(skips[0] == SKIP_INDEX);
    assert(skips.contains(SKIP_INDEX));
    assert(forall|i: usize| i != SKIP_INDEX ==> !skips.contains(i));
}

impl VolumetricSceneConfig {
    /// Builds the network, or says why the configuration allows none.
    pub fn init(&self) -> (result: Result<VolumetricScene, ConfigError>)
        ensures
            match spec_init_error(*self) {
                Some(error) => result == Err::<VolumetricScene, ConfigError>(error),
                None => result is Ok && {
                    let scene = result->Ok_0;
                    &&& scene.spec_encoder().levels() == self.input_encoder.encoding_factor
                    &&& scene.spec_hidden_size() == self.hidden_size
                },
            },
    {
        let input_encoder = match self.input_encoder.init() {
            Ok(encoder) => encoder,
            Err(error) => {
                return Err(error);
            },
        };
        let levels: usize = self.input_encoder.encoding_factor;
        assert(spec_output_size(levels as nat, COORDINATES as nat) == 6 * (2 * levels + 1))
            by (nonlinear_arith);
        let h: usize = self.hidden_size;
        if levels > (usize::MAX - 6) / 12 {
            return Err(ConfigError::TooLarge);
        }
        let i: usize = self.input_encoder.get_output_size(COORDINATES);
        if h > usize::MAX - i {
            return Err(ConfigError::TooLarge);
        }
        let mut hidden_layers: Vec<Linear> = Vec::new();
        hidden_layers.push(Linear { d_input: i, d_output: h });
        hidden_layers.push(Linear { d_input: h, d_output: h });
        hidden_layers.push(Linear { d_input: h, d_output: h });
        hidden_layers.push(Linear { d_input: h, d_output: h });
        hidden_layers.push(Linear { d_input: h, d_output: h });
        hidden_layers.push(Linear { d_input: h + i, d_output: h });
        hidden_layers.push(Linear { d_input: h, d_output: h });
        hidden_layers.push(Linear { d_input: h, d_output: h });
        let mut skip_indexs: Vec<usize> = Vec::new();
        skip_indexs.push(SKIP_INDEX);
        assert(hidden_layers@ =~= spec_hidden_layers(i, h));
        assert(skip_indexs@ =~= seq![SKIP_INDEX]);
        Ok(
            VolumetricScene {
                input_encoder,
                hidden_layers,
                output_layer_colors: Linear { d_input: h, d_output: 3 },
                output_layer_opacities: Linear { d_input: h, d_output: 1 },
                skip_indexs,
            },
        )
    }
}

impl Clone for VolumetricScene {
    fn clone(&self) -> (copy: Self)
        ensures
            copy.spec_encoder() == self.spec_encoder(),
            copy.spec_hidden_size() == self.spec_hidden_size(),
    {
        proof {
            use_type_invariant(self);
        }
        let mut hidden_layers: Vec<Linear> = Vec::new();
        let mut index: usize = 0;
        while index < self.hidden_layers.len()
            invariant
                index <= self.hidden_layers@.len(),
                hidden_layers@ =~= self.hidden_layers@.subrange(0, index as int),
            decreases self.hidden_layers@.len() - index,
        {
            hidden_layers.push(self.hidden_layers[index]);
            index += 1;
        }
        assert(hidden_layers@ =~= self.hidden_layers@);
        let mut skip_indexs: Vec<usize> = Vec::new();
        skip_indexs.push(SKIP_INDEX);
        assert(skip_indexs@ =~= seq![SKIP_INDEX]);
        VolumetricScene {
            input_encoder: self.input_encoder,
            hidden_layers,
            output_layer_colors: self.output_layer_colors,
            output_layer_opacities: self.output_layer_opacities,
            skip_indexs,
        }
    }
}

impl VolumetricScene {
    #[verifier::type_invariant]
    spec fn well_formed(self) -> bool {
        &&& spec_output_size(self.input_encoder.levels(), COORDINATES as nat)
            + self.spec_hidden_size() <= usize::MAX
        &&& self.hidden_layers@ == spec_hidden_layers(
            self.spec_encoded_size(),
            self.spec_hidden_size(),
        )
        &&& self.output_layer_colors == Linear { d_input: self.spec_hidden_size(), d_output: 3 }
        &&& self.output_layer_opacities == Linear {
            d_input: self.spec_hidden_size(),
            d_output: 1,
        }
        &&& self.skip_indexs@ == seq![SKIP_INDEX]
    }

    /// The encoder that the coordinates pass through.
    pub closed spec fn spec_encoder(self) -> PositionalEncoder {
        self.input_encoder
    }

    /// The width of the hidden layers.
    pub closed spec fn spec_hidden_size(self) -> usize {
        self.output_layer_colors.d_input
    }

    /// The width of the encoded coordinates of one sample.
    pub open spec fn spec_encoded_size(self) -> usize {
        spec_output_size(self.spec_encoder().levels(), COORDINATES as nat) as usize
    }

    /// The encoder that the coordinates pass through.
    pub fn input_encoder(&self) -> (encoder: &PositionalEncoder)
        ensures
            *encoder == self.spec_encoder(),
    {
        &self.input_encoder
    }

    /// The hidden layers, first to last.
    pub fn hidden_layers(&self) -> (layers: &Vec<Linear>)
        ensures
            layers@ == spec_hidden_layers(self.spec_encoded_size(), self.spec_hidden_size()),
            self.spec_encoded_size() + self.spec_hidden_size() <= usize::MAX,
    {
        proof {
            use_type_invariant(self);
        }
        &self.hidden_layers
    }

    /// The layer that turns the last hidden features into three colour
    /// components.
    pub fn output_layer_colors(&self) -> (layer: Linear)
        ensures
            layer == (Linear { d_input: self.spec_hidden_size(), d_output: 3 }),
    {
        proof {
            use_type_invariant(self);
        }
        self.output_layer_colors
    }

    /// The layer that turns the last hidden features into a density.
    pub fn output_layer_opacities(&self) -> (layer: Linear)
        ensures
            layer == (Linear { d_input: self.spec_hidden_size(), d_output: 1 }),
    {
        proof {
            use_type_invariant(self);
        }
        self.output_layer_opacities
    }

    /// The indices of the hidden layers that take the encoded coordinates
    /// once more.
    pub fn skip_indexs(&self) -> (skips: &Vec<usize>)
        ensures
            skips@ == seq![SKIP_INDEX],
    {
        proof {
            use_type_invariant(self);
        }
        &self.skip_indexs
    }

    fn is_skip(&self, index: usize) -> (skip: bool)
        ensures
            skip == self.skip_indexs@.contains(index),
    {
        let mut i: usize = 0;
        while i < self.skip_indexs.len()
            invariant
                i <= self.skip_indexs@.len(),
                forall|j: int| 0 <= j < i ==> self.skip_indexs@[j] != index,
            decreases self.skip_indexs@.len() - i,
        {
            if self.skip_indexs[i] == index {
                return true;
            }
            i += 1;
        }
        false
    }

    /// Runs a batch through the network, as far as shapes go: `directions`
    /// and `positions` are the shapes `[samples, channels]` of the two
    /// inputs, which are joined side by side, encoded, and passed through
    /// every layer in turn.
    pub fn forward(&self, directions: [usize; 2], positions: [usize; 2]) -> (result: Result<
        VolumetricSceneOutput,
        ShapeError,
    >)
        ensures
            directions[0] != positions[0] ==> result == Err::<VolumetricSceneOutput, ShapeError>(
                ShapeError::Rows,
            ),
            directions[0] == positions[0] && directions[1] + positions[1] != COORDINATES
                ==> result == Err::<VolumetricSceneOutput, ShapeError>(ShapeError::Channels),
            directions[0] == positions[0] && directions[1] + positions[1] == COORDINATES
                ==> result == Ok::<VolumetricSceneOutput, ShapeError>(
                VolumetricSceneOutput {
                    colors: [directions[0], 3],
                    opacities: [directions[0], 1],
                },
            ),
    {
        proof {
            use_type_invariant(self);
        }
        if directions[0] != positions[0] {
            return Err(ShapeError::Rows);
        }
        if directions[1] > COORDINATES || positions[1] != COORDINATES - directions[1] {
            return Err(ShapeError::Channels);
        }
        let samples: usize = directions[0];
        let encoded: usize = self.input_encoder.forward(COORDINATES).len();
        let mut width: usize = encoded;
        let mut index: usize = 0;
        while index < self.hidden_layers.len()
            invariant
                index <= self.hidden_layers@.len(),
                encoded == self.spec_encoded_size(),
                encoded + self.spec_hidden_size() <= usize::MAX,
                self.hidden_layers@ == spec_hidden_layers(encoded, self.spec_hidden_size()),
                self.skip_indexs@ == seq![SKIP_INDEX],
                width == if index == 0 {
                    encoded
                } else {
                    self.spec_hidden_size()
                },
            decreases self.hidden_layers@.len() - index,
        {
            proof {
                hidden_layers_fit(encoded, self.spec_hidden_size(), index as int);
            }
            if self.is_skip(index) {
                width = width + encoded;
            }
            let layer: Linear = self.hidden_layers[index];
            assert(layer.d_input == width);
            width = layer.d_output;
            index += 1;
        }
        assert(self.output_layer_colors.d_input == width);
        assert(self.output_layer_opacities.d_input == width);
        Ok(
            VolumetricSceneOutput {
                colors: [samples, self.output_layer_colors.d_output],
                opacities: [samples, self.output_layer_opacities.d_output],
            },
        )
    }
}

} // verus!
