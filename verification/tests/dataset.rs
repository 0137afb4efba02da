use simple_nerf::dataset::{
    interval, pixel_offset, Interval, SimpleNerfData, SimpleNerfDataset, SimpleNerfDatasetConfig,
    UNBOUNDED_INTERVAL,
};
use simple_nerf::encoder::PositionalEncoderConfig;
use simple_nerf::error::DatasetError;
use simple_nerf::renderer::VolumeRendererConfig;
use simple_nerf::scene::VolumetricSceneConfig;

const TEST_DATA_FOCAL: [u64; 0] = [];
const TEST_DATA_IMAGES: [u64; 4] = [106, 100, 100, 3];
const TEST_DATA_POSES: [u64; 3] = [106, 4, 4];

fn test_data(points_per_ray: usize) -> Result<SimpleNerfDataset, DatasetError> {
    (SimpleNerfDatasetConfig {
        points_per_ray,
        distance_range: 2.0f64.to_bits()..6.0f64.to_bits(),
    })
    .init_from_arrays(&TEST_DATA_FOCAL.to_vec(), &TEST_DATA_IMAGES.to_vec(), &TEST_DATA_POSES.to_vec())
}

fn init(range: (f64, f64), focal: &[u64], images: &[u64], poses: &[u64]) -> Result<SimpleNerfDataset, DatasetError> {
    (SimpleNerfDatasetConfig { points_per_ray: 4, distance_range: range.0.to_bits()..range.1.to_bits() })
        .init_from_arrays(&focal.to_vec(), &images.to_vec(), &poses.to_vec())
}

#[test]
fn dataset_simple_nerf_dataset_output_shape() {
    let dataset = test_data(7);
    assert!(dataset.is_ok(), "Error: {:?}", dataset.unwrap_err());

    let dataset = dataset.unwrap();
    let item = dataset.get(0);
    assert!(item.is_some());

    let item = item.unwrap();
    assert_eq!(item.directions, [100, 100, 7, 3]);
    assert_eq!(item.image, [100, 100, 3]);
    assert_eq!(item.intervals, [100, 100, 7, 1]);
    assert_eq!(item.positions, [100, 100, 7, 3]);
    assert_eq!(item.positions, item.directions);

    assert_eq!(dataset.len(), 106);
    assert_eq!(dataset.height(), 100);
    assert_eq!(dataset.width(), 100);
    assert_eq!(dataset.points_per_ray(), 7);
}

#[test]
fn mod_simple_nerf_dataset_output_shape() {
    let dataset = test_data(7);
    assert!(dataset.is_ok(), "Error: {:?}", dataset.unwrap_err());

    let dataset = dataset.unwrap();
    let item = dataset.get(0);
    assert!(item.is_some());

    let item = item.unwrap();
    assert_eq!(item.directions, [100, 100, 7, 3]);
    assert_eq!(item.intervals, [100, 100, 7, 1]);
    assert_eq!(item.image, [100, 100, 3]);
    assert_eq!(item.positions, [100, 100, 7, 3]);
    assert_eq!(item.positions, item.directions);

    assert_eq!(dataset.len(), 106);
    assert!(dataset.get(105).is_some());
    assert!(dataset.get(106).is_none());
}

#[test]
fn dataset_simple_nerf_dataset_splitting() {
    let dataset = test_data(8);
    assert!(dataset.is_ok(), "Error: {:?}", dataset.unwrap_err());

    let dataset = dataset.unwrap();
    let datasets = dataset.split_for_training(0.8f32.to_bits());
    assert_eq!(datasets.train.len(), 85);
    assert_eq!(datasets.test.len(), 21);
    assert!(!datasets.test.has_noisy_distance());

    let datasets = datasets.test.split_for_training(1.0f32.to_bits());
    assert_eq!(datasets.train.len(), 21);
    assert_eq!(datasets.test.len(), 0);
    assert!(!datasets.test.has_noisy_distance());
}

#[test]
fn mod_simple_nerf_dataset_splitting() {
    let dataset = test_data(8);
    assert!(dataset.is_ok(), "Error: {:?}", dataset.unwrap_err());

    let dataset = dataset.unwrap();
    let datasets = dataset.split_for_training(0.8f32.to_bits());
    assert_eq!(datasets.train.len() + datasets.test.len(), 106);
    assert!(datasets.train.has_noisy_distance());
    assert!(!datasets.test.has_noisy_distance());

    let datasets = datasets.train.split_for_training(1.0f32.to_bits());
    assert_eq!(datasets.train.len(), 85);
    assert_eq!(datasets.test.len(), 0);
    assert!(!datasets.test.has_noisy_distance());
    assert!(datasets.train.has_noisy_distance());
}

#[test]
fn a_new_dataset_holds_every_image_in_order_without_noise() {
    let dataset = test_data(7).unwrap();
    assert!(!dataset.has_noisy_distance());
    for index in 0..106 {
        assert_eq!(
            dataset.get(index),
            Some(SimpleNerfData {
                index,
                has_noisy_distance: false,
                directions: [100, 100, 7, 3],
                image: [100, 100, 3],
                intervals: [100, 100, 7, 1],
                positions: [100, 100, 7, 3],
            })
        );
    }
    assert_eq!(dataset.get(106), None);
    assert_eq!(dataset.get(usize::MAX), None);
}

#[test]
fn a_split_keeps_the_order_and_marks_the_training_side() {
    let datasets = test_data(7).unwrap().split_for_training(0.8f32.to_bits());
    for index in 0..85 {
        let item = datasets.train.get(index).unwrap();
        assert_eq!(item.index, index);
        assert!(item.has_noisy_distance);
    }
    assert!(datasets.train.get(85).is_none());
    for index in 0..21 {
        let item = datasets.test.get(index).unwrap();
        assert_eq!(item.index, 85 + index);
        assert!(!item.has_noisy_distance);
        assert_eq!(item.directions, [100, 100, 7, 3]);
    }
    assert!(datasets.test.get(21).is_none());
    assert_eq!(datasets.train.height(), 100);
    assert_eq!(datasets.test.width(), 100);
    assert_eq!(datasets.test.points_per_ray(), 7);
    assert_eq!(datasets.train.distance_range(), 2.0f64.to_bits()..6.0f64.to_bits());
    assert_eq!(datasets.test.distance_range(), 2.0f64.to_bits()..6.0f64.to_bits());
}

#[test]
fn a_split_loses_no_image_at_any_ratio() {
    let ratios = [
        0.0f32, 1.0, 0.5, 0.25, 0.8, 0.1, 0.999, 1e-30, 1e-45, 0.33333334, 0.49999997, 0.99999994,
        -0.0, -0.5, -1e30, 1.5, 1e30, f32::INFINITY, f32::NEG_INFINITY, f32::NAN, f32::MIN_POSITIVE,
    ];
    for ratio in ratios {
        let datasets = test_data(3).unwrap().split_for_training(ratio.to_bits());
        assert_eq!(datasets.train.len() + datasets.test.len(), 106, "ratio {}", ratio);
        let mut seen = Vec::new();
        for index in 0..datasets.train.len() {
            seen.push(datasets.train.get(index).unwrap().index);
        }
        for index in 0..datasets.test.len() {
            seen.push(datasets.test.get(index).unwrap().index);
        }
        assert_eq!(seen, (0..106).collect::<Vec<usize>>());
    }
}

#[test]
fn ratio_one_gives_an_empty_test_split() {
    let datasets = test_data(3).unwrap().split_for_training(1.0f32.to_bits());
    assert_eq!(datasets.train.len(), 106);
    assert_eq!(datasets.test.len(), 0);
    assert!(datasets.test.get(0).is_none());
}

#[test]
fn ratio_zero_gives_an_empty_train_split() {
    let datasets = test_data(3).unwrap().split_for_training(0.0f32.to_bits());
    assert_eq!(datasets.train.len(), 0);
    assert_eq!(datasets.test.len(), 106);
    assert!(datasets.train.get(0).is_none());
    assert!(datasets.train.has_noisy_distance());
}

#[test]
fn ratios_outside_the_unit_interval_are_clamped() {
    let len = |ratio: f32| test_data(3).unwrap().split_for_training(ratio.to_bits()).train.len();
    assert_eq!(len(-0.5), 0);
    assert_eq!(len(-0.0), 0);
    assert_eq!(len(f32::NEG_INFINITY), 0);
    assert_eq!(len(1.5), 106);
    assert_eq!(len(f32::INFINITY), 106);
    assert_eq!(len(f32::MAX), 106);
    assert_eq!(len(f32::NAN), 0);
    assert_eq!(len(-f32::NAN), 0);
}

#[test]
fn an_empty_dataset_splits_into_empty_datasets() {
    let dataset = init((2.0, 6.0), &[], &[0, 100, 100, 3], &[0, 3, 4]).unwrap();
    assert_eq!(dataset.len(), 0);
    assert!(dataset.get(0).is_none());
    let datasets = dataset.split_for_training(0.8f32.to_bits());
    assert_eq!(datasets.train.len(), 0);
    assert_eq!(datasets.test.len(), 0);
}

#[test]
fn a_clone_is_the_same_dataset() {
    let dataset = test_data(5).unwrap().split_for_training(0.5f32.to_bits()).train;
    let copy = dataset.clone();
    assert_eq!(copy.len(), 53);
    assert_eq!(copy.get(52), dataset.get(52));
    assert!(copy.has_noisy_distance());
    assert_eq!(copy.distance_range(), dataset.distance_range());
}

#[test]
fn dataset_rejects_zero_points_per_ray() {
    let config = SimpleNerfDatasetConfig { points_per_ray: 0, distance_range: 2.0f64.to_bits()..6.0f64.to_bits() };
    let result = config.init_from_arrays(&vec![], &vec![106, 100, 100, 3], &vec![106, 4, 4]);
    assert_eq!(result.unwrap_err(), DatasetError::PointsPerRay);
    let config = SimpleNerfDatasetConfig { points_per_ray: 0, distance_range: 2.0f64.to_bits()..2.0f64.to_bits() };
    let result = config.init_from_arrays(&vec![0], &vec![], &vec![]);
    assert_eq!(result.unwrap_err(), DatasetError::PointsPerRay);
}

#[test]
fn dataset_rejects_a_distance_range_of_one_point() {
    let images = [106, 100, 100, 3];
    let poses = [106, 4, 4];
    assert_eq!(init((2.0, 2.0), &[], &images, &poses).unwrap_err(), DatasetError::DistanceRange);
    assert_eq!(init((0.0, -0.0), &[], &images, &poses).unwrap_err(), DatasetError::DistanceRange);
    assert_eq!(init((-0.0, 0.0), &[], &images, &poses).unwrap_err(), DatasetError::DistanceRange);
    assert_eq!(
        init((f64::INFINITY, f64::INFINITY), &[], &images, &poses).unwrap_err(),
        DatasetError::DistanceRange
    );
    assert!(init((2.0, 2.0000000000000004), &[], &images, &poses).is_ok());
    assert!(init((f64::NAN, f64::NAN), &[], &images, &poses).is_ok());
}

#[test]
fn dataset_orders_the_distance_range() {
    let images = [106, 100, 100, 3];
    let poses = [106, 4, 4];
    let range = |near: f64, far: f64| near.to_bits()..far.to_bits();
    assert_eq!(init((2.0, 6.0), &[], &images, &poses).unwrap().distance_range(), range(2.0, 6.0));
    assert_eq!(init((6.0, 2.0), &[], &images, &poses).unwrap().distance_range(), range(2.0, 6.0));
    assert_eq!(init((-1.0, -3.0), &[], &images, &poses).unwrap().distance_range(), range(-3.0, -1.0));
    assert_eq!(init((1.0, -3.0), &[], &images, &poses).unwrap().distance_range(), range(-3.0, 1.0));
    assert_eq!(init((0.0, -1e-300), &[], &images, &poses).unwrap().distance_range(), range(-1e-300, 0.0));
    assert_eq!(
        init((f64::INFINITY, 1.0), &[], &images, &poses).unwrap().distance_range(),
        range(1.0, f64::INFINITY)
    );
    assert_eq!(
        init((f64::NAN, 1.0), &[], &images, &poses).unwrap().distance_range(),
        range(f64::NAN, 1.0)
    );
}

#[test]
fn dataset_rejects_malformed_arrays() {
    let images = [106, 100, 100, 3];
    let poses = [106, 4, 4];
    let range = (2.0, 6.0);
    assert_eq!(init(range, &[0], &images, &poses).unwrap_err(), DatasetError::Focal);
    assert_eq!(init(range, &[2, 0, 3], &images, &poses).unwrap_err(), DatasetError::Focal);
    assert!(init(range, &[1], &images, &poses).is_ok());
    assert!(init(range, &[2, 2], &images, &poses).is_ok());
    assert_eq!(init(range, &[], &[106, 100, 100], &poses).unwrap_err(), DatasetError::Images);
    assert_eq!(init(range, &[], &[106, 100, 100, 3, 1], &poses).unwrap_err(), DatasetError::Images);
    assert_eq!(init(range, &[], &[], &poses).unwrap_err(), DatasetError::Images);
    assert_eq!(init(range, &[], &images, &[106, 12]).unwrap_err(), DatasetError::Poses);
    assert_eq!(init(range, &[], &images, &[106, 3, 4, 1]).unwrap_err(), DatasetError::Poses);
    assert_eq!(init(range, &[], &images, &[105, 4, 4]).unwrap_err(), DatasetError::Count);
    assert_eq!(init(range, &[], &images, &[107, 3, 4]).unwrap_err(), DatasetError::Count);
    assert_eq!(init(range, &[], &[106, 100, 100, 4], &poses).unwrap_err(), DatasetError::Channels);
    assert_eq!(init(range, &[], &[106, 100, 100, 1], &poses).unwrap_err(), DatasetError::Channels);
    assert_eq!(init(range, &[], &images, &[106, 2, 4]).unwrap_err(), DatasetError::Poses);
    assert_eq!(init(range, &[], &images, &[106, 3, 3]).unwrap_err(), DatasetError::Poses);
    assert_eq!(init(range, &[], &images, &[106, 4, 3]).unwrap_err(), DatasetError::Poses);
    assert!(init(range, &[], &images, &[106, 3, 4]).is_ok());
    assert!(init(range, &[], &images, &[106, 4, 4]).is_ok());
    assert_eq!(init(range, &[], &[106, 100, 100, 4], &[105, 4, 4]).unwrap_err(), DatasetError::Count);
    assert_eq!(init(range, &[], &[106, 100, 100, 4], &[106, 2, 4]).unwrap_err(), DatasetError::Channels);
}

#[test]
fn dataset_rejects_grids_beyond_indexing() {
    let range = (2.0, 6.0);
    let huge = u64::MAX / 2;
    assert_eq!(init(range, &[], &[1, huge, 2, 3], &[1, 3, 4]).unwrap_err(), DatasetError::TooLarge);
    assert_eq!(init(range, &[], &[1, 2, huge, 3], &[1, 3, 4]).unwrap_err(), DatasetError::TooLarge);
    let edge = (usize::MAX / 12) as u64;
    let dataset = init(range, &[], &[1, edge, 1, 3], &[1, 3, 4]).unwrap();
    assert_eq!(dataset.height() as u64, edge);
    assert_eq!(init(range, &[], &[1, edge + 1, 1, 3], &[1, 3, 4]).unwrap_err(), DatasetError::TooLarge);
    assert!(init(range, &[], &[1, edge, 0, 3], &[1, 3, 4]).is_ok());
}

#[test]
fn every_item_fits_a_renderer_with_the_same_points_per_ray() {
    let dataset = test_data(7).unwrap();
    let renderer = VolumeRendererConfig {
        scene: VolumetricSceneConfig {
            input_encoder: PositionalEncoderConfig { encoding_factor: 3 },
            hidden_size: 8,
        },
        points_per_ray: 7,
        chunk_size: 4096,
    }
    .init()
    .unwrap();
    let item = dataset.get(3).unwrap();
    let rendering = renderer.forward(item.directions, item.intervals, item.positions).unwrap();
    assert_eq!(rendering.image, item.image);
    assert_eq!(rendering.chunks.last().unwrap().end, 100 * 100 * 7);
}

#[test]
fn the_center_pixel_looks_down_the_axis() {
    assert_eq!(pixel_offset(100, 100, 50, 50), (0, 0));
    assert_eq!(pixel_offset(2, 2, 1, 1), (0, 0));
    assert_eq!(pixel_offset(480, 640, 240, 320), (0, 0));
    let focal = 138.88887889922103f32;
    let (right, up) = pixel_offset(100, 100, 50, 50);
    let direction = [right as f32 / (2.0 * focal), up as f32 / (2.0 * focal), -1.0];
    assert_eq!(direction, [0.0, 0.0, -1.0]);
}

#[test]
fn pixel_offsets_are_twice_the_distance_from_the_center() {
    assert_eq!(pixel_offset(100, 100, 0, 0), (-100, 100));
    assert_eq!(pixel_offset(100, 100, 99, 99), (98, -98));
    assert_eq!(pixel_offset(100, 100, 0, 99), (98, 100));
    assert_eq!(pixel_offset(3, 5, 1, 2), (-1, 1));
    assert_eq!(pixel_offset(0, 0, 0, 0), (0, 0));
    assert_eq!(
        pixel_offset(usize::MAX, 0, 0, usize::MAX),
        (2 * (usize::MAX as i128), usize::MAX as i128)
    );
    assert_eq!(
        pixel_offset(0, usize::MAX, usize::MAX, 0),
        (-(usize::MAX as i128), -2 * (usize::MAX as i128))
    );
    let focal = 2.5f32;
    for column in 0..7usize {
        for row in 0..4usize {
            let (right, up) = pixel_offset(4, 7, row, column);
            assert_eq!(right as f32 / (2.0 * focal), (column as f32 - 7.0 / 2.0) / focal);
            assert_eq!(up as f32 / (2.0 * focal), (-(row as f32) + 4.0 / 2.0) / focal);
        }
    }
}

#[test]
fn the_last_interval_of_a_ray_is_unbounded() {
    assert_eq!(interval(7, 0), Interval::Gap { next: 1 });
    assert_eq!(interval(7, 5), Interval::Gap { next: 6 });
    assert_eq!(interval(7, 6), Interval::Unbounded);
    assert_eq!(interval(1, 0), Interval::Unbounded);
    assert_eq!(interval(usize::MAX, usize::MAX - 1), Interval::Unbounded);
    assert_eq!(interval(usize::MAX, usize::MAX - 2), Interval::Gap { next: usize::MAX - 1 });
    assert_eq!(interval(7, 7), Interval::Unbounded);
    assert_eq!(interval(0, 0), Interval::Unbounded);
    assert_eq!(interval(3, usize::MAX), Interval::Unbounded);
    assert_eq!(UNBOUNDED_INTERVAL as f64, 1e9);
}
