use voxel_resample::sampler::Coord;
use voxel_resample::{Mode, NearestNeighbor, SampleError, Sampler, Volume};

fn ramp(shape: (usize, usize, usize)) -> Volume<i32> {
    let n = shape.0 * shape.1 * shape.2;
    let data: Vec<i32> = (0..n as i32).collect();
    Volume::from_shape_vec(shape, data).unwrap()
}

fn run(s: &NearestNeighbor<i32>, vol: &Volume<i32>, coords: Vec<Coord>, shape: [u16; 3]) -> Vec<i32> {
    s.sample(vol, &coords, &shape).unwrap().into_vec()
}

#[test]
fn two_points_in_constant_mode() {
    let vol = ramp((2, 2, 2));
    let s = NearestNeighbor::new(Mode::Constant, 0);
    let out = s.sample(&vol, &vec![(0, 0, 0), (1, 1, 1)], &[2, 1, 1]).unwrap();
    assert_eq!(out.shape(), (2, 1, 1));
    assert_eq!(out.into_vec(), vec![0, 7]);
}

#[test]
fn negative_coordinate_fills_in_constant_mode() {
    let vol = ramp((2, 2, 2));
    let s: NearestNeighbor<i32> = NearestNeighbor::default();
    assert_eq!(run(&s, &vol, vec![(-1, 0, 0)], [1, 1, 1]), vec![0]);
}

#[test]
fn negative_coordinate_reads_edge_in_nearest_mode() {
    let vol = Volume::from_shape_vec((2, 2, 2), vec![10, 1, 2, 3, 4, 5, 6, 7]).unwrap();
    let s = NearestNeighbor::new(Mode::Nearest, -1);
    assert_eq!(run(&s, &vol, vec![(-1, 0, 0)], [1, 1, 1]), vec![10]);
}

#[test]
fn nearest_clamps_high_coordinate_to_last_index() {
    let vol = ramp((4, 4, 4));
    let s = NearestNeighbor::new(Mode::Nearest, 0);
    let expected = vol.get(3, 2, 2).unwrap();
    assert_eq!(expected, 3 * 16 + 2 * 4 + 2);
    assert_eq!(run(&s, &vol, vec![(10, 2, 2)], [1, 1, 1]), vec![expected]);
    assert_eq!(run(&s, &vol, vec![(2, -5, 7)], [1, 1, 1]), vec![2 * 16 + 3]);
}

#[test]
fn mismatched_coordinate_count_is_rejected() {
    let vol = ramp((2, 2, 2));
    let s = NearestNeighbor::new(Mode::Constant, 0);
    let coords: Vec<Coord> = vec![(0, 0, 0); 7];
    assert_eq!(s.sample(&vol, &coords, &[2, 2, 2]).unwrap_err(), SampleError::ShapeMismatch);
    let coords: Vec<Coord> = vec![(0, 0, 0); 9];
    assert_eq!(s.sample(&vol, &coords, &[2, 2, 2]).unwrap_err(), SampleError::ShapeMismatch);
}

#[test]
fn in_bounds_points_are_exact_in_every_mode() {
    let vol = ramp((3, 4, 5));
    for mode in [Mode::Constant, Mode::Nearest] {
        let s = NearestNeighbor::new(mode, -1);
        for x in 0..3 {
            for y in 0..4 {
                for z in 0..5 {
                    let got = run(&s, &vol, vec![(x, y, z)], [1, 1, 1]);
                    assert_eq!(got, vec![x * 20 + y * 5 + z]);
                }
            }
        }
    }
}

#[test]
fn output_follows_coordinate_order_and_shape() {
    let vol = ramp((2, 3, 4));
    let s = NearestNeighbor::new(Mode::Constant, 0);
    let coords: Vec<Coord> = (0..24).rev().map(|i| (i / 12, (i / 4) % 3, i % 4)).collect();
    let out = s.sample(&vol, &coords, &[3, 2, 4]).unwrap();
    assert_eq!(out.shape(), (3, 2, 4));
    assert_eq!(out.len(), 24);
    assert_eq!(out.into_vec(), (0..24).rev().collect::<Vec<i32>>());
}

#[test]
fn sampling_twice_gives_identical_output() {
    let vol = ramp((3, 3, 3));
    let s = NearestNeighbor::new(Mode::Nearest, 0);
    let coords: Vec<Coord> = vec![(-4, 1, 9), (1, 1, 1), (2, 0, 3), (0, 0, 0)];
    let a = run(&s, &vol, coords.clone(), [2, 2, 1]);
    let b = run(&s, &vol, coords, [2, 2, 1]);
    assert_eq!(a, b);
    assert_eq!(a, vec![5, 13, 20, 0]);
}

#[test]
fn configured_fill_value_is_used() {
    let vol = ramp((2, 2, 2));
    let s = NearestNeighbor::new(Mode::Constant, 42);
    assert_eq!(s.cval(), 42);
    assert_eq!(s.mode(), Mode::Constant);
    let got = run(&s, &vol, vec![(-1, 0, 0), (0, -3, 1), (2, 0, 0), (0, 0, 5), (1, 0, 1)], [5, 1, 1]);
    assert_eq!(got, vec![42, 42, 42, 42, 5]);
}

#[test]
fn default_sampler_is_constant_with_zero_fill() {
    let s: NearestNeighbor<u8> = NearestNeighbor::default();
    assert_eq!(s.mode(), Mode::Constant);
    assert_eq!(s.cval(), 0);
}

#[test]
fn coordinate_past_extreme_values_is_handled() {
    let vol = ramp((2, 2, 2));
    let near = NearestNeighbor::new(Mode::Nearest, 0);
    let constant = NearestNeighbor::new(Mode::Constant, 9);
    let coords: Vec<Coord> = vec![(i32::MAX, i32::MIN, i32::MAX)];
    assert_eq!(run(&near, &vol, coords.clone(), [1, 1, 1]), vec![5]);
    assert_eq!(run(&constant, &vol, coords, [1, 1, 1]), vec![9]);
}

#[test]
fn empty_volume_always_fills() {
    let vol: Volume<i32> = Volume::from_shape_vec((0, 3, 3), vec![]).unwrap();
    let s = NearestNeighbor::new(Mode::Nearest, 8);
    assert_eq!(run(&s, &vol, vec![(0, 0, 0), (-1, 5, 1)], [1, 2, 1]), vec![8, 8]);
}

#[test]
fn empty_request_gives_empty_volume() {
    let vol = ramp((2, 2, 2));
    let s = NearestNeighbor::new(Mode::Constant, 0);
    let out = s.sample(&vol, &vec![], &[0, 4, 4]).unwrap();
    assert_eq!(out.shape(), (0, 4, 4));
    assert_eq!(out.len(), 0);
}

#[test]
fn volume_rejects_wrong_value_count() {
    let r = Volume::from_shape_vec((2, 2, 2), vec![0u8; 7]);
    assert_eq!(r.err(), Some(SampleError::ShapeMismatch));
    let r = Volume::from_shape_vec((usize::MAX, 2, 1), vec![0u8; 2]);
    assert_eq!(r.err(), Some(SampleError::ShapeMismatch));
}

#[test]
fn volume_get_is_row_major_and_bounded() {
    let vol = ramp((2, 3, 4));
    assert_eq!(vol.get(1, 2, 3), Some(23));
    assert_eq!(vol.get(0, 1, 0), Some(4));
    assert_eq!(vol.get(2, 0, 0), None);
    assert_eq!(vol.get(0, 3, 0), None);
    assert_eq!(vol.get(0, 0, 4), None);
}
