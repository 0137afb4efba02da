use simple_nerf::encoder::PositionalEncoderConfig;
use simple_nerf::error::{ConfigError, ShapeError};
use simple_nerf::scene::{Linear, VolumetricSceneConfig, COORDINATES, DEPTH, SKIP_INDEX};

#[test]
fn output_shape() {
    let config = VolumetricSceneConfig {
        hidden_size: 1,
        input_encoder: PositionalEncoderConfig { encoding_factor: 1 },
    };
    let model = config.init().unwrap();
    let positions = [123usize, 3];
    let directions = positions;
    let outputs = model.forward(positions, directions).unwrap();

    assert_eq!(outputs.colors, [123, 3]);
    assert_eq!(outputs.opacities, [123, 1]);
}

#[test]
fn volumetric_scene_output_shape() {
    let config = VolumetricSceneConfig {
        hidden_size: 1,
        input_encoder: PositionalEncoderConfig { encoding_factor: 1 },
    };
    let model = config.init().unwrap();
    let positions = [123usize, 3];
    let directions = positions;
    let outputs = model.forward(positions, directions).unwrap();
    assert_eq!(outputs.colors[0], outputs.opacities[0]);
    assert_eq!([outputs.colors[0], outputs.colors[1] + outputs.opacities[1]], [123, 4]);
}

#[test]
fn scene_layers_chain_through_the_skip_connection() {
    let config = VolumetricSceneConfig {
        hidden_size: 256,
        input_encoder: PositionalEncoderConfig { encoding_factor: 10 },
    };
    let scene = config.init().unwrap();
    assert_eq!(COORDINATES, 6);
    assert_eq!(DEPTH, 8);
    assert_eq!(SKIP_INDEX, 5);
    let encoded = config.input_encoder.get_output_size(COORDINATES);
    assert_eq!(encoded, 126);
    assert_eq!(scene.input_encoder().encoding_factor(), 10);
    assert_eq!(
        scene.hidden_layers(),
        &vec![
            Linear { d_input: 126, d_output: 256 },
            Linear { d_input: 256, d_output: 256 },
            Linear { d_input: 256, d_output: 256 },
            Linear { d_input: 256, d_output: 256 },
            Linear { d_input: 256, d_output: 256 },
            Linear { d_input: 382, d_output: 256 },
            Linear { d_input: 256, d_output: 256 },
            Linear { d_input: 256, d_output: 256 },
        ]
    );
    assert_eq!(scene.skip_indexs(), &vec![5]);
    assert_eq!(scene.output_layer_colors(), Linear { d_input: 256, d_output: 3 });
    assert_eq!(scene.output_layer_opacities(), Linear { d_input: 256, d_output: 1 });

    let mut width = encoded;
    for (index, layer) in scene.hidden_layers().iter().enumerate() {
        if scene.skip_indexs().contains(&index) {
            width += encoded;
        }
        assert_eq!(layer.d_input, width);
        width = layer.d_output;
    }
    assert_eq!(scene.output_layer_colors().d_input, width);
    assert_eq!(scene.output_layer_opacities().d_input, width);
}

#[test]
fn scene_rejects_zero_levels() {
    let config = VolumetricSceneConfig {
        hidden_size: 8,
        input_encoder: PositionalEncoderConfig { encoding_factor: 0 },
    };
    assert_eq!(config.init().unwrap_err(), ConfigError::EncodingFactor);
}

#[test]
fn scene_rejects_widths_beyond_indexing() {
    let config = VolumetricSceneConfig {
        hidden_size: 8,
        input_encoder: PositionalEncoderConfig { encoding_factor: usize::MAX / 2 },
    };
    assert_eq!(config.init().unwrap_err(), ConfigError::TooLarge);
    let config = VolumetricSceneConfig {
        hidden_size: usize::MAX - 17,
        input_encoder: PositionalEncoderConfig { encoding_factor: 1 },
    };
    assert_eq!(config.init().unwrap_err(), ConfigError::TooLarge);
    let config = VolumetricSceneConfig {
        hidden_size: usize::MAX - 18,
        input_encoder: PositionalEncoderConfig { encoding_factor: 1 },
    };
    assert!(config.init().is_ok());
}

#[test]
fn scene_accepts_a_hidden_size_of_zero() {
    let config = VolumetricSceneConfig {
        hidden_size: 0,
        input_encoder: PositionalEncoderConfig { encoding_factor: 2 },
    };
    let scene = config.init().unwrap();
    assert_eq!(scene.hidden_layers()[5], Linear { d_input: 30, d_output: 0 });
    assert_eq!(scene.forward([4, 3], [4, 3]).unwrap().colors, [4, 3]);
}

#[test]
fn scene_rejects_inputs_that_do_not_line_up() {
    let config = VolumetricSceneConfig {
        hidden_size: 4,
        input_encoder: PositionalEncoderConfig { encoding_factor: 2 },
    };
    let scene = config.init().unwrap();
    assert_eq!(scene.forward([10, 3], [11, 3]).unwrap_err(), ShapeError::Rows);
    assert_eq!(scene.forward([10, 3], [10, 4]).unwrap_err(), ShapeError::Channels);
    assert_eq!(scene.forward([10, 2], [10, 3]).unwrap_err(), ShapeError::Channels);
    assert_eq!(scene.forward([10, 7], [10, 0]).unwrap_err(), ShapeError::Channels);
    assert_eq!(scene.forward([10, usize::MAX], [10, 7]).unwrap_err(), ShapeError::Channels);
    assert_eq!(scene.forward([10, 2], [11, 3]).unwrap_err(), ShapeError::Rows);
    let outputs = scene.forward([10, 2], [10, 4]).unwrap();
    assert_eq!(outputs.colors, [10, 3]);
    assert_eq!(outputs.opacities, [10, 1]);
    let outputs = scene.forward([0, 3], [0, 3]).unwrap();
    assert_eq!(outputs.colors, [0, 3]);
    assert_eq!(outputs.opacities, [0, 1]);
}
