use toy_interferometer::observation::{baseline_pairs, channel_width_hz};
use toy_interferometer::uv::interleave_uv;

#[test]
fn channel_widths_by_array() {
    assert_eq!(channel_width_hz("LOFAR"), 5_000_000);
    assert_eq!(channel_width_hz("e-MERLIN"), 50_000_000);
    assert_eq!(channel_width_hz("LAMBDA"), 5_000_000);
    assert_eq!(channel_width_hz(""), 5_000_000);
    assert_eq!(channel_width_hz("e-merlin"), 5_000_000);
}

#[test]
fn baselines_of_three_antennas() {
    assert_eq!(baseline_pairs(3), vec![(0, 0), (0, 1), (0, 2), (1, 1), (1, 2), (2, 2)]);
}

#[test]
fn baselines_of_no_antenna() {
    assert!(baseline_pairs(0).is_empty());
    assert_eq!(baseline_pairs(1), vec![(0, 0)]);
}

#[test]
fn baseline_count_is_triangular() {
    for n in 0..40usize {
        let pairs = baseline_pairs(n);
        assert_eq!(pairs.len(), n * (n + 1) / 2);
        for (i, j) in pairs {
            assert!(i <= j && j < n);
        }
    }
}

#[test]
fn baseline_of_i_j_sits_after_earlier_rows() {
    let n = 7;
    let pairs = baseline_pairs(n);
    for i in 0..n {
        for j in i..n {
            let before: usize = (0..i).map(|r| n - r).sum();
            assert_eq!(pairs[before + j - i], (i, j));
        }
    }
}

#[test]
fn interleave_alternates_u_and_v() {
    assert_eq!(interleave_uv(vec![1.5, 2.5], vec![-1.0, -2.0]), vec![1.5, -1.0, 2.5, -2.0]);
}

#[test]
fn interleave_continues_with_the_longer_input() {
    assert_eq!(interleave_uv(vec![1, 2, 3], vec![9]), vec![1, 9, 2, 3]);
    assert_eq!(interleave_uv(vec![1], vec![7, 8, 9]), vec![1, 7, 8, 9]);
    assert_eq!(interleave_uv(Vec::<u8>::new(), vec![4, 5]), vec![4, 5]);
}

#[test]
fn interleave_of_equal_lengths_has_u_at_even_places() {
    let u = vec![10, 11, 12, 13];
    let v = vec![20, 21, 22, 23];
    let r = interleave_uv(u.clone(), v.clone());
    assert_eq!(r.len(), 8);
    for i in 0..4 {
        assert_eq!(r[2 * i], u[i]);
        assert_eq!(r[2 * i + 1], v[i]);
    }
}
