//! Concrete checks of the fixed-point interpolation arithmetic and the
//! field configuration, all in millionth units (1_000_000 stands for 1.0).

use perlin::math::{bilerp, lerp, smoothstep, smootherstep};
use perlin::perlin::{dot_fp, ease, locate_axis, random_angle, unit_vector2, ConfigError, Easing,
    Perlin, PerlinConfig, SampleError, Transform};

#[test]
fn lerp_endpoints_and_midpoint() {
    assert_eq!(lerp(0, 1_000_000, 0), 0);
    assert_eq!(lerp(0, 1_000_000, 1_000_000), 1_000_000);
    assert_eq!(lerp(0, 1_000_000, 500_000), 500_000);
    assert_eq!(lerp(-1_000_000, 1_000_000, 500_000), 0);
    assert_eq!(lerp(2_000_000, 2_000_000, 123_456), 2_000_000);
}

#[test]
fn bilerp_constant_field() {
    // a constant field stays constant whatever the weights
    for &a in &[-1_500_000i64, 0, 777_777, 2_000_000] {
        for &u in &[0i64, 250_000, 999_999, 1_000_000] {
            for &v in &[0i64, 500_000, 1_000_000] {
                assert_eq!(bilerp(a, a, a, a, u, v), a);
            }
        }
    }
}

#[test]
fn bilerp_weights_pair_axes() {
    // u blends left to right, v blends top to bottom
    assert_eq!(bilerp(0, 1_000_000, 0, 1_000_000, 1_000_000, 0), 1_000_000);
    assert_eq!(bilerp(0, 0, 1_000_000, 1_000_000, 0, 1_000_000), 1_000_000);
    assert_eq!(bilerp(1_000_000, 0, 0, 0, 0, 0), 1_000_000);
}

#[test]
fn smoothstep_known_values() {
    assert_eq!(smoothstep(0), 0);
    assert_eq!(smoothstep(1_000_000), 1_000_000);
    assert_eq!(smoothstep(500_000), 500_000);
    // 0.25^2 * (3 - 0.5) = 0.15625
    assert_eq!(smoothstep(250_000), 156_250);
}

#[test]
fn smootherstep_known_values() {
    assert_eq!(smootherstep(0), 0);
    assert_eq!(smootherstep(1_000_000), 1_000_000);
    assert_eq!(smootherstep(500_000), 500_000);
    // 6 x^5 - 15 x^4 + 10 x^3 at 0.25 is 0.103515625
    assert_eq!(smootherstep(250_000), 103_515);
}

#[test]
fn smootherstep_monotone_and_flat_at_ends() {
    let mut prev: i64 = 0;
    let mut x: i64 = 0;
    while x <= 1_000_000 {
        let y = smootherstep(x);
        assert!(y >= prev);
        prev = y;
        x += 10_000;
    }
    // cubically flat near both endpoints: within ten millionths of 0 and 1
    assert_eq!(smootherstep(10_000), 9);
    assert_eq!(smootherstep(990_000), 999_990);
}

#[test]
fn easing_dispatch() {
    assert_eq!(ease(Easing::SmoothStep, 250_000), 156_250);
    assert_eq!(ease(Easing::SmootherStep, 250_000), 103_515);
}

#[test]
fn config_rejects_zero_dimensions() {
    let bad = PerlinConfig { cell_size: 0, grid_width: 80, grid_height: 80 };
    assert_eq!(bad.validate(), Err(ConfigError));
    let bad_w = PerlinConfig { cell_size: 40, grid_width: 0, grid_height: 80 };
    assert_eq!(bad_w.validate(), Err(ConfigError));
    let bad_h = PerlinConfig { cell_size: 40, grid_width: 80, grid_height: 0 };
    assert_eq!(bad_h.validate(), Err(ConfigError));
    let good = PerlinConfig { cell_size: 40, grid_width: 80, grid_height: 80 };
    assert_eq!(good.validate(), Ok(()));
}

#[test]
fn grid_cells_counts_vertices() {
    let cfg = PerlinConfig { cell_size: 40, grid_width: 80, grid_height: 80 };
    // 2 x 2 cells, hence a 3 x 3 vertex grid
    assert_eq!(cfg.grid_cells(), (2, 2));
    let uneven = PerlinConfig { cell_size: 40, grid_width: 81, grid_height: 120 };
    assert_eq!(uneven.grid_cells(), (3, 3));
}

#[test]
fn random_angle_is_a_whole_degree() {
    for _ in 0..100 {
        let a = random_angle();
        assert!(a < 360);
    }
}

#[test]
fn sample_error_variants_are_distinct() {
    assert_ne!(SampleError::OutOfBounds, SampleError::RadiusOverflow);
}

#[test]
fn unit_vector2_matches_table() {
    let east = unit_vector2(0);
    assert_eq!((east.gx, east.gy), (1_000_000, 0));
    let north = unit_vector2(90);
    assert_eq!((north.gx, north.gy), (0, 1_000_000));
    let thirty = unit_vector2(30);
    assert_eq!((thirty.gx, thirty.gy), (866_025, 500_000));
    let deep = unit_vector2(240);
    assert_eq!((deep.gx, deep.gy), (-500_000, -866_025));
}

#[test]
fn gradients_are_unit_after_construction() {
    let cfg = PerlinConfig { cell_size: 40, grid_width: 80, grid_height: 80 };
    let p = Perlin::random(cfg).unwrap();
    assert_eq!(p.grid.len(), 3);
    for row in &p.grid {
        assert_eq!(row.len(), 3);
        for g in row {
            let m = g.gx * g.gx + g.gy * g.gy;
            assert!((m - 1_000_000_000_000i64).abs() <= 10_000_000);
            assert!(g.angle < 360);
        }
    }
}

#[test]
fn animate_rotates_every_angle() {
    let cfg = PerlinConfig { cell_size: 40, grid_width: 80, grid_height: 80 };
    let mut p = Perlin::random(cfg).unwrap();
    let before: Vec<Vec<u32>> = p.grid.iter().map(|r| r.iter().map(|g| g.angle).collect()).collect();
    p.animate(90);
    for (i, row) in p.grid.iter().enumerate() {
        for (j, g) in row.iter().enumerate() {
            assert_eq!(g.angle, (before[i][j] + 90) % 360);
            let m = g.gx * g.gx + g.gy * g.gy;
            assert!((m - 1_000_000_000_000i64).abs() <= 10_000_000);
        }
    }
    // a rotation past a full turn wraps
    let start = p.grid[0][0].angle;
    p.animate(450);
    assert_eq!(p.grid[0][0].angle, (start + 90) % 360);
}

#[test]
fn update_grid_identity_keeps_angles() {
    let cfg = PerlinConfig { cell_size: 40, grid_width: 80, grid_height: 80 };
    let mut p = Perlin::random(cfg).unwrap();
    let before: Vec<Vec<u32>> = p.grid.iter().map(|r| r.iter().map(|g| g.angle).collect()).collect();
    p.update_grid(Transform::Identity);
    for (i, row) in p.grid.iter().enumerate() {
        for (j, g) in row.iter().enumerate() {
            assert_eq!(g.angle, before[i][j]);
        }
    }
}

#[test]
fn construction_rejects_zero_dimension() {
    let bad = PerlinConfig { cell_size: 0, grid_width: 80, grid_height: 80 };
    assert!(matches!(Perlin::random(bad), Err(ConfigError)));
}

#[test]
fn locate_axis_splits_cell_and_offset() {
    // 45.5 px in 40 px cells: cell 1, relative (45.5 - 40) / 40 = 0.1375
    assert_eq!(locate_axis(45_500_000, 40, 80), (1, 137_500));
    assert_eq!(locate_axis(0, 40, 80), (0, 0));
    assert_eq!(locate_axis(79_999_999, 40, 80), (1, 999_999));
}

#[test]
fn dot_with_unit_axis_recovers_component() {
    let g = unit_vector2(45);
    assert_eq!(dot_fp(&g, 1_000_000, 0), g.gx);
    assert_eq!(dot_fp(&g, 0, 1_000_000), g.gy);
    assert_eq!(dot_fp(&g, 0, 0), 0);
}

#[test]
fn sample_is_zero_at_grid_vertex() {
    let cfg = PerlinConfig { cell_size: 40, grid_width: 80, grid_height: 80 };
    let p = Perlin::random(cfg).unwrap();
    assert_eq!(p.sample(40_000_000, 40_000_000), Ok(0));
    assert_eq!(p.sample(0, 0), Ok(0));
}

#[test]
fn sample_rejects_out_of_bounds() {
    let cfg = PerlinConfig { cell_size: 40, grid_width: 80, grid_height: 80 };
    let p = Perlin::random(cfg).unwrap();
    assert_eq!(p.sample(-1_000_000, 0), Err(SampleError::OutOfBounds));
    assert_eq!(p.sample(80_000_000, 0), Err(SampleError::OutOfBounds));
    assert_eq!(p.sample(0, -1), Err(SampleError::OutOfBounds));
    assert_eq!(p.sample(0, 80_000_000), Err(SampleError::OutOfBounds));
}

#[test]
fn sample_lattice_stays_in_range() {
    let cfg = PerlinConfig { cell_size: 40, grid_width: 80, grid_height: 80 };
    let p = Perlin::random(cfg).unwrap();
    for i in 0..5i64 {
        for j in 0..5i64 {
            let v = p.sample(j * 16_000_000, i * 16_000_000).unwrap();
            assert!(-1_500_000 <= v && v <= 1_500_000);
        }
    }
}

#[test]
fn sample_is_continuous_across_cell_boundary() {
    let cfg = PerlinConfig { cell_size: 40, grid_width: 80, grid_height: 80 };
    let p = Perlin::random(cfg).unwrap();
    // 1e-4 px on either side of the x = 40 px seam, tolerance 1e-3
    for k in 0..8i64 {
        let y = k * 10_000_000 + 5_000_000;
        let left = p.sample(40_000_000 - 100, y).unwrap();
        let right = p.sample(40_000_000 + 100, y).unwrap();
        assert!((left - right).abs() <= 1_000);
        let below = p.sample(y, 40_000_000 - 100).unwrap();
        let above = p.sample(y, 40_000_000 + 100).unwrap();
        assert!((below - above).abs() <= 1_000);
    }
}
