use simple_nerf::encoder::{Feature, PositionalEncoderConfig};
use simple_nerf::error::ConfigError;

#[test]
fn positional_encoder_output_shape() {
    let config = PositionalEncoderConfig { encoding_factor: 10 };
    let model = config.init();
    assert!(model.is_ok(), "Error: {:?}", model.unwrap_err());

    let model = model.unwrap();
    let input = [1usize, 3];
    let output = model.forward(input[1]);
    assert_eq!(output.len(), config.get_output_size(input[1]));

    let config = PositionalEncoderConfig { encoding_factor: 4 };
    let model = config.init();
    assert!(model.is_ok(), "Error: {:?}", model.unwrap_err());

    let model = model.unwrap();
    let input = [1usize, 5];
    let output = model.forward(input[1]);
    assert_eq!(output.len(), config.get_output_size(input[1]));

    let config_invalid = PositionalEncoderConfig { encoding_factor: 0 };
    let model = config_invalid.init();
    assert!(model.is_err());
}

#[test]
fn encoder_rejects_zero_levels() {
    let config = PositionalEncoderConfig { encoding_factor: 0 };
    assert_eq!(config.init().unwrap_err(), ConfigError::EncodingFactor);
}

#[test]
fn encoder_width_is_channels_times_two_levels_plus_one() {
    let config = PositionalEncoderConfig { encoding_factor: 10 };
    assert_eq!(config.get_output_size(3), 63);
    assert_eq!(config.get_output_size(6), 126);
    assert_eq!(config.get_output_size(0), 0);
    let config = PositionalEncoderConfig { encoding_factor: 1 };
    assert_eq!(config.get_output_size(1), 3);
}

#[test]
fn encoder_columns_are_grouped_by_kind() {
    let encoder = PositionalEncoderConfig { encoding_factor: 2 }.init().unwrap();
    assert_eq!(encoder.encoding_factor(), 2);
    let features = encoder.forward(3);
    assert_eq!(
        features,
        vec![
            Feature::Identity { channel: 0 },
            Feature::Identity { channel: 1 },
            Feature::Identity { channel: 2 },
            Feature::Sine { channel: 0, level: 0 },
            Feature::Sine { channel: 1, level: 0 },
            Feature::Sine { channel: 2, level: 0 },
            Feature::Cosine { channel: 0, level: 0 },
            Feature::Cosine { channel: 1, level: 0 },
            Feature::Cosine { channel: 2, level: 0 },
            Feature::Sine { channel: 0, level: 1 },
            Feature::Sine { channel: 1, level: 1 },
            Feature::Sine { channel: 2, level: 1 },
            Feature::Cosine { channel: 0, level: 1 },
            Feature::Cosine { channel: 1, level: 1 },
            Feature::Cosine { channel: 2, level: 1 },
        ]
    );
}

#[test]
fn encoder_of_no_coordinates_is_empty() {
    let encoder = PositionalEncoderConfig { encoding_factor: 3 }.init().unwrap();
    assert!(encoder.forward(0).is_empty());
}

#[test]
fn mod_output_shape() {
    let config = PositionalEncoderConfig { encoding_factor: 10 };
    let model = config.init();
    assert!(model.is_ok(), "Error: {:?}", model.unwrap_err());

    let model = model.unwrap();
    let input = [1usize, 3];
    let output = [input[0], model.forward(input[1]).len()];
    assert_eq!(output[1], config.get_output_size(input[1]));

    let config = PositionalEncoderConfig { encoding_factor: 4 };
    let model = config.init();
    assert!(model.is_ok(), "Error: {:?}", model.unwrap_err());

    let model = model.unwrap();
    let input = [1usize, 5];
    let output = [input[0], model.forward(input[1]).len()];
    assert_eq!(output[1], config.get_output_size(input[1]));

    let config_invalid = PositionalEncoderConfig { encoding_factor: 0 };
    let model = config_invalid.init();
    assert!(model.is_err());
}

#[test]
fn every_coordinate_has_a_column_in_every_group() {
    let levels = 4usize;
    let channels = 5usize;
    let features = PositionalEncoderConfig { encoding_factor: levels }.init().unwrap().forward(channels);
    assert_eq!(features.len(), channels * (2 * levels + 1));
    for channel in 0..channels {
        assert_eq!(features[channel], Feature::Identity { channel });
        for level in 0..levels {
            assert_eq!(features[(1 + 2 * level) * channels + channel], Feature::Sine { channel, level });
            assert_eq!(features[(2 + 2 * level) * channels + channel], Feature::Cosine { channel, level });
        }
    }
}
