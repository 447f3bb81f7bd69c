use gravity_model::axis::Axis;
use gravity_model::cuboid::Cuboid;
use gravity_model::gravity_objects::{evaluate_all, gradient_tensor, DataType};
use gravity_model::rotation::{rotation_matrix_x, rotation_matrix_y, rotation_matrix_z};

const G: f64 = 6.674e-11;

#[derive(Clone)]
struct Brick {
    centroid: [f64; 3],
    lengths: [f64; 3],
    turn_z: f64,
    density: f64,
}

fn prism(brick: &Brick) -> Cuboid<f64> {
    let mut low = [0.0; 3];
    let mut high = [0.0; 3];
    for k in 0..3 {
        low[k] = brick.centroid[k] - brick.lengths[k] / 2.;
        high[k] = brick.centroid[k] + brick.lengths[k] / 2.;
    }
    Cuboid::new_from_bounds(low, high, brick.density)
}

fn offset(point: &[f64; 3], vertex: &[f64; 3]) -> (f64, f64, f64, f64) {
    let x = point[0] * (1. + 1e-7) - vertex[0];
    let y = point[1] * (1. + 1e-7) - vertex[1];
    let z = point[2] * (1. + 1e-7) - vertex[2];
    (x, y, z, (x * x + y * y + z * z).sqrt())
}

fn local_vector(cuboid: &Cuboid<f64>, point: [f64; 3]) -> [f64; 3] {
    let g = cuboid.corner_sum(
        [0.; 3],
        |sign, vertex| {
            let (x, y, z, r) = offset(&point, vertex);
            if r == 0. {
                return [f64::NAN; 3];
            }
            let sign = sign as f64;
            [
                sign * ((y * (r + z).ln()) + (z * (r + y).ln()) - (x * ((y * z) / (r * x)).atan())),
                sign * ((z * (r + x).ln()) + (x * (r + z).ln()) - (y * ((x * z) / (r * y)).atan())),
                sign * ((x * (r + y).ln()) + (y * (r + x).ln()) - (z * ((x * y) / (r * z)).atan())),
            ]
        },
        |sum, term| [sum[0] + term[0], sum[1] + term[1], sum[2] + term[2]],
    );
    let scale = G * cuboid.density;
    [g[0] * scale, g[1] * scale, g[2] * scale]
}

fn local_tensor(cuboid: &Cuboid<f64>, point: [f64; 3]) -> [[f64; 3]; 3] {
    let [xx, yy, zz, xy, xz, yz] = cuboid.corner_sum(
        [0.; 6],
        |sign, vertex| {
            let (x, y, z, r) = offset(&point, vertex);
            if r == 0. {
                return [f64::NAN; 6];
            }
            let sign = sign as f64;
            [
                sign * -((y * z) / (r * x)).atan(),
                sign * -((x * z) / (r * y)).atan(),
                sign * -((y * x) / (r * z)).atan(),
                sign * (r + z).ln(),
                sign * (r + y).ln(),
                sign * (r + x).ln(),
            ]
        },
        |sum, term| {
            let mut next = sum;
            for k in 0..6 {
                next[k] += term[k];
            }
            next
        },
    );
    let scale = G * cuboid.density;
    let mut tensor = gradient_tensor(xx, xy, xz, yy, yz, zz);
    for row in tensor.iter_mut() {
        for entry in row.iter_mut() {
            *entry *= scale;
        }
    }
    tensor
}

fn turned(vector: [f64; 3], matrix: &[[f64; 3]; 3]) -> [f64; 3] {
    let mut out = [0.; 3];
    for j in 0..3 {
        for k in 0..3 {
            out[j] += vector[k] * matrix[k][j];
        }
    }
    out
}

fn product(a: &[[f64; 3]; 3], b: &[[f64; 3]; 3]) -> [[f64; 3]; 3] {
    let mut out = [[0.; 3]; 3];
    for i in 0..3 {
        for j in 0..3 {
            for k in 0..3 {
                out[i][j] += a[i][k] * b[k][j];
            }
        }
    }
    out
}

fn transposed(a: &[[f64; 3]; 3]) -> [[f64; 3]; 3] {
    let mut out = [[0.; 3]; 3];
    for i in 0..3 {
        for j in 0..3 {
            out[i][j] = a[j][i];
        }
    }
    out
}

fn about_z(angle: f64) -> [[f64; 3]; 3] {
    rotation_matrix_z(angle.cos(), angle.sin(), -angle.sin(), 0., 1.)
}

/// The unscaled quantity of a brick at a point of the world frame.
fn value(brick: &Brick, data_type: DataType, point: &[f64; 3]) -> f64 {
    let cuboid = prism(brick);
    let mut offset = [0.; 3];
    for k in 0..3 {
        offset[k] = point[k] - brick.centroid[k];
    }
    let mut local = turned(offset, &about_z(-brick.turn_z));
    for k in 0..3 {
        local[k] += brick.centroid[k];
    }
    let rotation = about_z(brick.turn_z);
    data_type.select(
        || turned(local_vector(&cuboid, local), &rotation),
        || {
            product(
                &product(&transposed(&rotation), &local_tensor(&cuboid, local)),
                &rotation,
            )
        },
    )
}

fn shown(bricks: &[Brick], data_type: DataType, points: &[[f64; 3]]) -> Vec<f64> {
    evaluate_all(
        bricks,
        data_type,
        points,
        0.,
        |brick, data_type, point| value(brick, data_type, point),
        |sum, value| sum + value,
        |sum, factor| sum * factor as f64,
    )
}

fn cube_below_origin() -> Brick {
    Brick {
        centroid: [0., 0., -5.5],
        lengths: [10., 10., 10.],
        turn_z: 0.,
        density: 2000.,
    }
}

fn close(actual: f64, expected: f64, relative: f64) -> bool {
    (actual - expected).abs() <= relative * expected.abs()
}

#[test]
fn cube_below_the_origin_gz() {
    let cube = cube_below_origin();
    let raw = value(&cube, DataType::Gz, &[0., 0., 0.]);
    assert!(raw < 0.);
    assert!(close(raw, -3.1174898833621935e-06, 1e-9));
    let scaled = shown(&[cube], DataType::Gz, &[[0., 0., 0.]]);
    assert_eq!(scaled.len(), 1);
    assert!(close(scaled[0], 311.7489883362193, 1e-9));
    assert!(scaled[0].abs() > 10. && scaled[0].abs() < 1000.);
}

#[test]
fn cube_gradient_trace_vanishes_outside() {
    let cube = cube_below_origin();
    for point in [[3., 4., 2.], [0., 0., 0.], [-20., 7., -3.], [1., 2., 0.5]] {
        let gxx = value(&cube, DataType::Gxx, &point);
        let gyy = value(&cube, DataType::Gyy, &point);
        let gzz = value(&cube, DataType::Gzz, &point);
        let largest = gxx.abs().max(gyy.abs()).max(gzz.abs());
        assert!((gxx + gyy + gzz).abs() <= 1e-6 * largest);
    }
}

#[test]
fn cube_far_field_matches_point_mass() {
    let cube = Brick {
        centroid: [0., 0., 0.],
        lengths: [10., 10., 10.],
        turn_z: 0.,
        density: 2000.,
    };
    let mass = 2000. * 1000.;
    for distance in [100., 1000.] {
        let gz = value(&cube, DataType::Gz, &[0., 0., distance]);
        let point_mass = G * mass / (distance * distance);
        assert!(close(gz.abs(), point_mass, 0.01));
    }
    let near = value(&cube, DataType::Gz, &[0., 0., 100.]).abs();
    let far = value(&cube, DataType::Gz, &[0., 0., 1000.]).abs();
    assert!(far < near);
}

#[test]
fn scaling_is_applied_once_to_the_sum_over_bodies() {
    let bricks = [
        cube_below_origin(),
        Brick {
            centroid: [4., 0., -3.],
            lengths: [2., 3., 1.],
            turn_z: 0.,
            density: -1800.,
        },
    ];
    let point = [1., 2., 0.5];
    let gz: Vec<f64> = bricks.iter().map(|b| value(b, DataType::Gz, &point)).collect();
    let gzz: Vec<f64> = bricks.iter().map(|b| value(b, DataType::Gzz, &point)).collect();
    let shown_gz = shown(&bricks, DataType::Gz, &[point]);
    let shown_gzz = shown(&bricks, DataType::Gzz, &[point]);
    assert_eq!(shown_gz, vec![(0. + gz[0] + gz[1]) * -1e8]);
    assert_eq!(shown_gzz, vec![(0. + gzz[0] + gzz[1]) * 1e9]);
    assert!(close(shown_gz[0], 261.5826971082057, 1e-9));
    assert!(close(shown_gzz[0], 579.103237142946, 1e-9));
}

#[test]
fn unturned_brick_matches_the_axis_aligned_sum() {
    let brick = Brick {
        centroid: [1., 2., -4.],
        lengths: [2., 4., 6.],
        turn_z: 0.,
        density: 2000.,
    };
    let cuboid = prism(&brick);
    for point in [[3.3, -1.7, 0.5], [-2.5, 0.4, 1.5]] {
        let g = local_vector(&cuboid, point);
        let gg = local_tensor(&cuboid, point);
        assert!(close(value(&brick, DataType::Gx, &point), g[0], 1e-9));
        assert!(close(value(&brick, DataType::Gy, &point), g[1], 1e-9));
        assert!(close(value(&brick, DataType::Gz, &point), g[2], 1e-9));
        assert!(close(value(&brick, DataType::Gxy, &point), gg[0][1], 1e-9));
        assert!(close(value(&brick, DataType::Gzz, &point), gg[2][2], 1e-9));
    }
}

#[test]
fn brick_turned_a_quarter_matches_the_brick_with_lengths_exchanged() {
    let turned_brick = Brick {
        centroid: [1., 2., -4.],
        lengths: [2., 4., 6.],
        turn_z: std::f64::consts::FRAC_PI_2,
        density: 2000.,
    };
    let exchanged = Brick {
        centroid: [1., 2., -4.],
        lengths: [4., 2., 6.],
        turn_z: 0.,
        density: 2000.,
    };
    let point = [3.3, -1.7, 0.5];
    for data_type in [
        DataType::Gx,
        DataType::Gy,
        DataType::Gz,
        DataType::Gxx,
        DataType::Gxy,
        DataType::Gxz,
        DataType::Gyy,
        DataType::Gyz,
        DataType::Gzz,
    ] {
        let actual = value(&turned_brick, data_type, &point);
        let expected = value(&exchanged, data_type, &point);
        assert!(close(actual, expected, 1e-5));
    }
}

#[test]
fn turning_forth_and_back_returns_the_point() {
    let point = [3.3, -1.7, 0.5];
    for angle in [0.3_f64, -1.2, 2.5] {
        let (cos, sin) = (angle.cos(), angle.sin());
        let forth = [
            rotation_matrix_x(cos, sin, -sin, 0., 1.),
            rotation_matrix_y(cos, sin, -sin, 0., 1.),
            rotation_matrix_z(cos, sin, -sin, 0., 1.),
        ];
        let back = [
            rotation_matrix_x(cos, -sin, sin, 0., 1.),
            rotation_matrix_y(cos, -sin, sin, 0., 1.),
            rotation_matrix_z(cos, -sin, sin, 0., 1.),
        ];
        for axis in [Axis::X, Axis::Y, Axis::Z] {
            let k = axis.to_index();
            assert_eq!(back[k], transposed(&forth[k]));
            let returned = turned(turned(point, &forth[k]), &back[k]);
            for i in 0..3 {
                assert!((returned[i] - point[i]).abs() < 1e-12);
            }
            assert_eq!(turned(point, &forth[k])[k], point[k]);
        }
    }
}

#[test]
fn a_point_on_a_corner_gives_nan() {
    let touching = Brick {
        centroid: [0.5, 0.5, -0.5],
        lengths: [1., 1., 1.],
        turn_z: 0.,
        density: 2000.,
    };
    let points = [[0., 0., 0.], [0.3, 0.7, 2.]];
    for data_type in [DataType::Gz, DataType::Gxy, DataType::Gzz] {
        let values = shown(&[cube_below_origin(), touching.clone()], data_type, &points);
        assert!(values[0].is_nan());
        assert!(values[1].is_finite());
    }
}

#[test]
fn void_sphere_gzz() {
    let (radius, density): (f64, f64) = (1., -1800.);
    let centre: [f64; 3] = [0., 0., -1.];
    let volume = (4. / 3.) * std::f64::consts::PI * radius.powi(3);
    let mass = density * volume;
    assert!(close(volume, 4.18879, 1e-5));
    assert!(close(mass, -7539.8, 1e-5));
    let raw = |centre: &[f64; 3], data_type: DataType, point: &[f64; 3]| -> f64 {
        let x = point[0] * (1. + 1e-7) - centre[0];
        let y = point[1] * (1. + 1e-7) - centre[1];
        let z = point[2] * (1. + 1e-7) - centre[2];
        let r = x * x + y * y + z * z;
        let constant = -(4. / 3.) * std::f64::consts::PI * G * radius.powi(3) * density;
        data_type.select(
            || {
                [
                    constant * x / r.powf(3. / 2.),
                    constant * y / r.powf(3. / 2.),
                    constant * z / r.powf(3. / 2.),
                ]
            },
            || {
                gradient_tensor(
                    (constant / r.powf(3. / 2.)) * (1. - ((3. * x.powi(2)) / r)),
                    (-3. * constant * y * z) / (r.powf(5. / 2.)),
                    (-3. * constant * x * z) / (r.powf(5. / 2.)),
                    (constant / r.powf(3. / 2.)) * (1. - ((3. * y.powi(2)) / r)),
                    (-3. * constant * y * z) / (r.powf(5. / 2.)),
                    (constant / r.powf(3. / 2.)) * (1. - ((3. * z.powi(2)) / r)),
                )
            },
        )
    };
    let add = |sum: f64, value: f64| sum + value;
    let scale = |sum: f64, factor: i64| sum * factor as f64;
    let origin = [[0., 0., 0.]];
    let gzz = evaluate_all(&[centre], DataType::Gzz, &origin, 0., raw, add, scale);
    assert!(close(gzz[0], -1006.4154897627974, 1e-9));
    let gz = evaluate_all(&[centre], DataType::Gz, &origin, 0., raw, add, scale);
    assert!(close(gz[0], -50.32077448813987, 1e-9));
    let far = [[0., 0., 999.]];
    let point_mass = G * mass / (1000. * 1000.);
    let gz_far = evaluate_all(&[centre], DataType::Gz, &far, 0., raw, add, scale);
    assert!(close(gz_far[0] / -1e8, -point_mass, 0.01));
}
