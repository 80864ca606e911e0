use fluid_sim::{Bound, Density, FlowBox, FluidParams, Operation};

type Flow = FlowBox<f32>;

fn evaluate(op: Operation<f32>) -> f32 {
    match op {
        Operation::Whole { value } => value as f32,
        Operation::Sum { left, right } => left + right,
        Operation::Difference { left, right } => left - right,
        Operation::Product { left, right } => left * right,
        Operation::Quotient { left, right } => left / right,
        Operation::Negated { value } => -value,
        Operation::Cosine { angle } => angle.cos(),
        Operation::Sine { angle } => angle.sin(),
        Operation::Clamped { value, low, high } => {
            if low <= high {
                value.clamp(low, high)
            } else {
                value
            }
        }
        Operation::Floor { value } => value.floor(),
    }
}

fn line_of(value: f32) -> usize {
    value as usize
}

fn evaluate_double(op: Operation<f64>) -> f64 {
    match op {
        Operation::Whole { value } => value as f64,
        Operation::Sum { left, right } => left + right,
        Operation::Difference { left, right } => left - right,
        Operation::Product { left, right } => left * right,
        Operation::Quotient { left, right } => left / right,
        Operation::Negated { value } => -value,
        Operation::Cosine { angle } => angle.cos(),
        Operation::Sine { angle } => angle.sin(),
        Operation::Clamped { value, low, high } => {
            if low <= high {
                value.clamp(low, high)
            } else {
                value
            }
        }
        Operation::Floor { value } => value.floor(),
    }
}
fn line_of_double(value: f64) -> usize {
    value as usize
}

fn numbered(cells: usize) -> Vec<f32> {
    (0..cells).map(|i| (i + 1) as f32).collect()
}

fn bits(values: &[f32]) -> Vec<u32> {
    values.iter().map(|v| v.to_bits()).collect()
}

fn inner_sum(values: &[f32], dim: (usize, usize)) -> f32 {
    let mut sum = 0.0;
    for y in 1..dim.1 - 1 {
        for x in 1..dim.0 - 1 {
            sum += values[Flow::index(&x, &y, &dim)];
        }
    }
    sum
}

#[test]
fn empty_density_is_zero_in_every_channel() {
    let density = Density::empty(6, 0.0f32);
    assert_eq!(density.r, vec![0.0; 6]);
    assert_eq!(density.g, vec![0.0; 6]);
    assert_eq!(density.b, vec![0.0; 6]);
}

#[test]
fn empty_density_of_no_cells() {
    let density = Density::empty(0, 0.0f32);
    assert!(density.r.is_empty() && density.g.is_empty() && density.b.is_empty());
    assert!(density.zip().is_empty());
}

#[test]
fn zip_puts_the_channels_one_after_the_other() {
    let density = Density { r: vec![1.0f32, 2.0], g: vec![3.0, 4.0], b: vec![5.0, 6.0] };
    assert_eq!(density.zip(), vec![1.0, 2.0, 3.0, 4.0, 5.0, 6.0]);
}

#[test]
fn default_params_are_those_of_the_default_fluid() {
    let params = FluidParams::default(&evaluate);
    assert_eq!(params.viscosity, 0.00005);
    assert_eq!(params.diffusion_rate, 0.00005);
    assert_eq!(params.diffuse_iters, 3);
    assert_eq!(params.project_iters, 4);
}

#[test]
fn with_rates_keeps_the_usual_sweep_counts() {
    let params = FluidParams::with_rates(0.25f32, 0.5f32);
    assert_eq!(params.viscosity, 0.25);
    assert_eq!(params.diffusion_rate, 0.5);
    assert_eq!(params.diffuse_iters, 3);
    assert_eq!(params.project_iters, 4);
}

#[test]
fn init_builds_a_box_at_rest() {
    let flow = Flow::init(5, 4, &evaluate);
    assert_eq!(flow.dim, (5, 4));
    for buffer in [
        &flow.vel_x,
        &flow.vel_x0,
        &flow.vel_y,
        &flow.vel_y0,
        &flow.density.r,
        &flow.density.g,
        &flow.density.b,
        &flow.density0.r,
        &flow.density0.g,
        &flow.density0.b,
    ] {
        assert_eq!(buffer, &vec![0.0f32; 20]);
    }
    assert_eq!(flow.fluid_params.viscosity, 0.00005);
    assert_eq!(flow.fluid_params.diffusion_rate, 0.00005);
    assert_eq!(flow.fluid_params.diffuse_iters, 3);
    assert_eq!(flow.fluid_params.project_iters, 4);
}

#[test]
fn init_with_params_keeps_the_params() {
    let params =
        FluidParams { viscosity: 0.5f32, diffusion_rate: 0.25, diffuse_iters: 7, project_iters: 9 };
    let flow = Flow::init_with_params(2, 2, params, &evaluate);
    assert_eq!(flow.dim, (2, 2));
    assert_eq!(flow.vel_x.len(), 4);
    assert_eq!(flow.density0.b.len(), 4);
    assert_eq!(flow.fluid_params.viscosity, 0.5);
    assert_eq!(flow.fluid_params.diffusion_rate, 0.25);
    assert_eq!(flow.fluid_params.diffuse_iters, 7);
    assert_eq!(flow.fluid_params.project_iters, 9);
}

#[test]
fn add_fluid_density_adds_to_one_cell() {
    let mut flow = Flow::init(4, 4, &evaluate);
    flow.add_fluid_density(1, 2, (0.25, 0.5, 0.75), &evaluate);
    let mut r = vec![0.0f32; 16];
    let mut g = vec![0.0f32; 16];
    let mut b = vec![0.0f32; 16];
    r[9] = 0.25;
    g[9] = 0.5;
    b[9] = 0.75;
    assert_eq!(flow.density.r, r);
    assert_eq!(flow.density.g, g);
    assert_eq!(flow.density.b, b);
    assert_eq!(flow.density0.r, vec![0.0; 16]);
    assert_eq!(flow.vel_x0, vec![0.0; 16]);
}

#[test]
fn add_fluid_density_accumulates() {
    let mut twice = Flow::init(4, 4, &evaluate);
    twice.add_fluid_density(1, 1, (1.0, 2.0, 3.0), &evaluate);
    twice.add_fluid_density(1, 1, (0.5, 0.25, 4.0), &evaluate);
    let mut once = Flow::init(4, 4, &evaluate);
    once.add_fluid_density(1, 1, (1.5, 2.25, 7.0), &evaluate);
    assert_eq!(twice.density.r, once.density.r);
    assert_eq!(twice.density.g, once.density.g);
    assert_eq!(twice.density.b, once.density.b);
    assert_eq!(twice.density.r[5], 1.5);
    assert_eq!(twice.density.g[5], 2.25);
    assert_eq!(twice.density.b[5], 7.0);
}

#[test]
fn add_fluid_density_beyond_the_grid_lands_on_the_wall() {
    let mut flow = Flow::init(4, 3, &evaluate);
    flow.add_fluid_density(10, 10, (1.0, 1.0, 1.0), &evaluate);
    assert_eq!(flow.density.r[11], 1.0);
    flow.add_fluid_density(10, 1, (2.0, 0.0, 0.0), &evaluate);
    assert_eq!(flow.density.r[7], 2.0);
    assert_eq!(flow.density.r.iter().sum::<f32>(), 3.0);
}

#[test]
fn add_fluid_velocity_goes_into_the_scratch_buffers() {
    let mut flow = Flow::init(4, 4, &evaluate);
    flow.add_fluid_velocity(2, 1, 5.0, -3.0, &evaluate);
    flow.add_fluid_velocity(2, 1, 1.0, 1.0, &evaluate);
    assert_eq!(flow.vel_x0[6], 6.0);
    assert_eq!(flow.vel_y0[6], -2.0);
    assert_eq!(flow.vel_x, vec![0.0; 16]);
    assert_eq!(flow.vel_y, vec![0.0; 16]);
    assert_eq!(flow.vel_x0.iter().filter(|v| **v != 0.0).count(), 1);
    assert_eq!(flow.vel_y0.iter().filter(|v| **v != 0.0).count(), 1);
}

#[test]
fn add_fluid_velocity_beyond_the_grid_lands_on_the_wall() {
    let mut flow = Flow::init(4, 4, &evaluate);
    flow.add_fluid_velocity(4, 0, 1.0, 2.0, &evaluate);
    assert_eq!(flow.vel_x0[3], 1.0);
    assert_eq!(flow.vel_y0[3], 2.0);
}

#[test]
fn add_fluid_velocity_angle_mag_along_the_axes() {
    let mut flow = Flow::init(4, 4, &evaluate);
    flow.add_fluid_velocity_angle_mag(1, 1, 0.0, 2.0, &evaluate);
    assert_eq!(flow.vel_x0[5], 2.0);
    assert_eq!(flow.vel_y0[5], 0.0);
    let quarter = std::f32::consts::FRAC_PI_2;
    flow.add_fluid_velocity_angle_mag(2, 2, quarter, 3.0, &evaluate);
    assert_eq!(flow.vel_x0[10], quarter.cos() * 3.0);
    assert_eq!(flow.vel_y0[10], 3.0);
}

#[test]
fn scale_fluid_density_by_one_changes_nothing() {
    let mut flow = Flow::init(4, 4, &evaluate);
    flow.density.r = numbered(16);
    flow.density.g = numbered(16).iter().map(|v| -v / 3.0).collect();
    flow.density.b = numbered(16).iter().map(|v| v * 1.0e-20).collect();
    let before = (bits(&flow.density.r), bits(&flow.density.g), bits(&flow.density.b));
    flow.scale_fluid_density(1.0, &evaluate);
    assert_eq!(bits(&flow.density.r), before.0);
    assert_eq!(bits(&flow.density.g), before.1);
    assert_eq!(bits(&flow.density.b), before.2);
}

#[test]
fn scale_fluid_density_by_zero_clears_every_channel() {
    let mut flow = Flow::init(4, 4, &evaluate);
    flow.density.r = numbered(16);
    flow.density.g = numbered(16);
    flow.density.b = numbered(16);
    flow.scale_fluid_density(0.0, &evaluate);
    assert_eq!(flow.density.r, vec![0.0; 16]);
    assert_eq!(flow.density.g, vec![0.0; 16]);
    assert_eq!(flow.density.b, vec![0.0; 16]);
}

#[test]
fn scale_fluid_density_multiplies_each_cell() {
    let mut flow = Flow::init(3, 3, &evaluate);
    flow.density.r = numbered(9);
    flow.density0.r = numbered(9);
    flow.vel_x = numbered(9);
    flow.scale_fluid_density(0.5, &evaluate);
    assert_eq!(flow.density.r, vec![0.5, 1.0, 1.5, 2.0, 2.5, 3.0, 3.5, 4.0, 4.5]);
    assert_eq!(flow.density0.r, numbered(9));
    assert_eq!(flow.vel_x, numbered(9));
}

#[test]
fn set_bound_copies_the_walls_of_a_scalar() {
    let dim = (4, 4);
    let mut vals = numbered(16);
    Flow::set_bound(&Bound::Neither, &mut vals, &dim, &evaluate);
    assert_eq!(
        vals,
        vec![
            6.0, 6.0, 7.0, 7.0, //
            6.0, 6.0, 7.0, 7.0, //
            10.0, 10.0, 11.0, 11.0, //
            10.0, 10.0, 11.0, 11.0,
        ]
    );
}

#[test]
fn set_bound_turns_rows_for_the_horizontal_component() {
    let dim = (4, 4);
    let mut vals = numbered(16);
    Flow::set_bound(&Bound::X, &mut vals, &dim, &evaluate);
    assert_eq!(
        vals,
        vec![
            0.0, -6.0, -7.0, 0.0, //
            6.0, 6.0, 7.0, 7.0, //
            10.0, 10.0, 11.0, 11.0, //
            0.0, -10.0, -11.0, 0.0,
        ]
    );
}

#[test]
fn set_bound_turns_columns_for_the_vertical_component() {
    let dim = (4, 4);
    let mut vals = numbered(16);
    Flow::set_bound(&Bound::Y, &mut vals, &dim, &evaluate);
    assert_eq!(
        vals,
        vec![
            0.0, 6.0, 7.0, 0.0, //
            -6.0, 6.0, 7.0, -7.0, //
            -10.0, 10.0, 11.0, -11.0, //
            0.0, 10.0, 11.0, 0.0,
        ]
    );
}

#[test]
fn set_bound_mirrors_the_outer_rows_of_a_horizontal_velocity() {
    let dim = (6, 5);
    let mut vals: Vec<f32> = (0..30).map(|i| (i * i) as f32 * 0.37 - 11.0).collect();
    Flow::set_bound(&Bound::X, &mut vals, &dim, &evaluate);
    for x in 1..5 {
        let top = vals[Flow::index(&x, &0, &dim)];
        let below = vals[Flow::index(&x, &1, &dim)];
        assert_eq!(top.to_bits(), (-below).to_bits());
        let bottom = vals[Flow::index(&x, &4, &dim)];
        let above = vals[Flow::index(&x, &3, &dim)];
        assert_eq!(bottom.to_bits(), (-above).to_bits());
    }
}

#[test]
fn set_bound_makes_corners_the_mean_of_their_neighbours() {
    let dim = (6, 5);
    for bound in [Bound::Neither, Bound::X, Bound::Y] {
        let mut vals: Vec<f32> = (0..30).map(|i| (i * 7 % 13) as f32 + 0.125).collect();
        Flow::set_bound(&bound, &mut vals, &dim, &evaluate);
        let at = |x: usize, y: usize| vals[Flow::index(&x, &y, &dim)];
        assert_eq!(at(0, 0), 0.5 * (at(1, 0) + at(0, 1)));
        assert_eq!(at(0, 4), 0.5 * (at(1, 4) + at(0, 3)));
        assert_eq!(at(5, 0), 0.5 * (at(4, 0) + at(5, 1)));
        assert_eq!(at(5, 4), 0.5 * (at(4, 4) + at(5, 3)));
    }
}

#[test]
fn set_bound_leaves_inner_cells_alone() {
    let dim = (5, 5);
    let before = numbered(25);
    let mut vals = before.clone();
    Flow::set_bound(&Bound::X, &mut vals, &dim, &evaluate);
    for y in 1..4 {
        for x in 1..4 {
            let i = Flow::index(&x, &y, &dim);
            assert_eq!(vals[i], before[i]);
        }
    }
}

#[test]
fn set_bound_on_the_smallest_grid_takes_the_corners_in_order() {
    let mut vals = vec![1.0f32, 2.0, 4.0, 8.0];
    Flow::set_bound(&Bound::Neither, &mut vals, &(2, 2), &evaluate);
    // corner 0 from cells 1 and 2, corner 2 from cells 3 and 0, corner 1
    // from cells 0 and 3, corner 3 from cells 2 and 1, each as they stand
    assert_eq!(vals, vec![3.0, 5.5, 5.5, 5.5]);
}

#[test]
fn lin_solve_without_sweeps_changes_nothing() {
    let dim = (4, 4);
    let mut vals = numbered(16);
    let source = vec![100.0f32; 16];
    Flow::lin_solve(&Bound::Neither, &mut vals, &source, 1.0, 6.0, 0, &dim, &evaluate);
    assert_eq!(vals, numbered(16));
}

#[test]
fn lin_solve_relaxes_the_inner_cell() {
    let dim = (3, 3);
    let mut vals = vec![
        0.0f32, 1.0, 0.0, //
        2.0, 50.0, 3.0, //
        0.0, 4.0, 0.0,
    ];
    let mut source = vec![0.0f32; 9];
    source[4] = 2.0;
    Flow::lin_solve(&Bound::Neither, &mut vals, &source, 0.5, 2.0, 1, &dim, &evaluate);
    // (2 + 0.5 * (3 + 2 + 4 + 1)) / 2
    assert_eq!(vals, vec![3.5; 9]);
}

#[test]
fn lin_solve_reads_the_field_as_it_stood_before_the_sweep() {
    let dim = (4, 3);
    let mut vals = vec![
        0.0f32, 0.0, 0.0, 0.0, //
        0.0, 8.0, 16.0, 0.0, //
        0.0, 0.0, 0.0, 0.0,
    ];
    let source = vec![0.0f32; 12];
    Flow::lin_solve(&Bound::Neither, &mut vals, &source, 1.0, 4.0, 1, &dim, &evaluate);
    // each inner cell sees the other as it was: 16 / 4 and 8 / 4
    assert_eq!(vals[5], 4.0);
    assert_eq!(vals[6], 2.0);
    assert_eq!(vals[1], 4.0);
    assert_eq!(vals[4], 4.0);
    assert_eq!(vals[7], 2.0);
    assert_eq!(vals[0], 4.0);
}

#[test]
fn lin_solve_sweeps_as_often_as_told() {
    let dim = (3, 3);
    let source = vec![1.0f32; 9];
    let mut vals = vec![0.0f32; 9];
    Flow::lin_solve(&Bound::Neither, &mut vals, &source, 1.0, 8.0, 3, &dim, &evaluate);
    // 1/8, then (1 + 4/8) / 8, then (1 + 4 * 0.1875) / 8
    assert_eq!(vals, vec![0.21875; 9]);
}

#[test]
fn diffuse_uses_the_scaled_rate() {
    let dim = (3, 3);
    let rate = 0.0001220703125f32;
    let mut source = vec![0.0f32; 9];
    source[4] = 5.8828125;
    let mut vals = vec![0.0f32; 9];
    Flow::diffuse(&Bound::Neither, &mut vals, &source, rate, 1.0, 1, &dim, &evaluate);
    // strength 1.220703125, diagonal 5.8828125
    assert_eq!(vals, vec![1.0; 9]);
    Flow::diffuse(&Bound::Neither, &mut vals, &source, rate, 1.0, 1, &dim, &evaluate);
    assert_eq!(vals[4], (5.8828125 + 1.220703125 * 4.0) / 5.8828125);
}

#[test]
fn project_measures_the_divergence() {
    let dim = (3, 3);
    let mut vel_x = vec![0.0f32; 9];
    let mut vel_y = vec![0.0f32; 9];
    vel_x[5] = 3.0;
    vel_x[3] = 1.0;
    vel_y[7] = 10.0;
    vel_y[1] = 4.0;
    let mut p = vec![9.0f32; 9];
    let mut div = vec![9.0f32; 9];
    Flow::project(&mut vel_x, &mut vel_y, &mut p, &mut div, 0, &dim, &evaluate);
    // -((3 - 1) + (10 - 4)) / 2 in the inner cell, copied to every wall
    assert_eq!(div, vec![-4.0; 9]);
    assert_eq!(p, vec![0.0; 9]);
}

#[test]
fn project_takes_the_pressure_slope_off_the_velocity() {
    let dim = (4, 3);
    let mut vel_x = vec![0.0f32; 12];
    let mut vel_y = vec![0.0f32; 12];
    vel_x[5] = 6.0;
    vel_x[6] = 6.0;
    let mut p = vec![0.0f32; 12];
    let mut div = vec![0.0f32; 12];
    Flow::project(&mut vel_x, &mut vel_y, &mut p, &mut div, 1, &dim, &evaluate);
    // divergence: cell 5 sees 6 to its right, cell 6 sees 6 to its left
    assert_eq!(div[5], -3.0);
    assert_eq!(div[6], 3.0);
    // one sweep from zero pressure: divergence over six
    assert_eq!(p[5], -0.5);
    assert_eq!(p[6], 0.5);
    assert_eq!(p[4], -0.5);
    assert_eq!(p[7], 0.5);
    // 6 - (0.5 - -0.5) / 2 in both inner cells
    assert_eq!(vel_x[5], 5.5);
    assert_eq!(vel_x[6], 5.5);
    assert_eq!(vel_x[1], -5.5);
    assert_eq!(vel_x[4], 5.5);
    assert_eq!(vel_y[5], 0.0);
}

#[test]
fn advect_without_flow_keeps_the_inner_cells() {
    let dim = (5, 4);
    let source = numbered(20);
    let still = vec![0.0f32; 20];
    let mut vals = vec![-1.0f32; 20];
    Flow::advect(&Bound::Neither, &mut vals, &source, &still, &still, 0.5, &dim, &evaluate, &line_of);
    for y in 1..3 {
        for x in 1..4 {
            let i = Flow::index(&x, &y, &dim);
            assert_eq!(vals[i], source[i]);
        }
    }
}

#[test]
fn advect_takes_the_value_from_upstream() {
    let dim = (5, 4);
    let source = numbered(20);
    let flow_x = vec![2.0f32; 20];
    let still = vec![0.0f32; 20];
    let mut vals = vec![0.0f32; 20];
    // reach 0.5, so the fluid in a cell was one cell to the left
    Flow::advect(&Bound::Neither, &mut vals, &source, &flow_x, &still, 0.005, &dim, &evaluate, &line_of);
    assert_eq!(0.005f32 * 100.0, 0.5);
    assert_eq!(vals[Flow::index(&2, &1, &dim)], source[Flow::index(&1, &1, &dim)]);
    assert_eq!(vals[Flow::index(&3, &2, &dim)], source[Flow::index(&2, &2, &dim)]);
}

#[test]
fn advect_blends_between_cells() {
    let dim = (5, 4);
    let source = numbered(20);
    let flow_x = vec![1.0f32; 20];
    let flow_y = vec![-0.5f32; 20];
    let mut vals = vec![0.0f32; 20];
    Flow::advect(&Bound::Neither, &mut vals, &source, &flow_x, &flow_y, 0.005, &dim, &evaluate, &line_of);
    // cell (2, 1) looks back to (1.5, 1.25): cells 7, 8, 12 and 13
    let expected = 0.5 * (0.75 * 7.0 + 0.25 * 12.0) + 0.5 * (0.75 * 8.0 + 0.25 * 13.0);
    assert_eq!(vals[Flow::index(&2, &1, &dim)], expected);
    assert_eq!(expected, 8.75);
}

#[test]
fn advect_holds_the_point_of_departure_inside_the_grid() {
    let dim = (4, 4);
    let source = numbered(16);
    let storm = vec![1.0e6f32; 16];
    let mut vals = vec![0.0f32; 16];
    Flow::advect(&Bound::Neither, &mut vals, &source, &storm, &storm, 1.0, &dim, &evaluate, &line_of);
    // every cell looks back to (0.5, 0.5): the mean of cells 0, 1, 4 and 5
    for y in 1..3 {
        for x in 1..3 {
            assert_eq!(vals[Flow::index(&x, &y, &dim)], 3.5);
        }
    }
    let calm = vec![-1.0e6f32; 16];
    Flow::advect(&Bound::Neither, &mut vals, &source, &calm, &calm, 1.0, &dim, &evaluate, &line_of);
    // every cell looks back to (3.5, 3.5): the lines 3 and 4 along each
    // axis, whose crossings are read from cells 15, 15, 15 and 15
    for y in 1..3 {
        for x in 1..3 {
            assert_eq!(vals[Flow::index(&x, &y, &dim)], 16.0);
        }
    }
}

#[test]
fn step_keeps_a_box_at_rest_at_rest() {
    let mut flow = Flow::init(6, 5, &evaluate);
    flow.step(1.0 / 30.0, &evaluate, &line_of);
    flow.step(1.0 / 30.0, &evaluate, &line_of);
    for buffer in [
        &flow.vel_x,
        &flow.vel_x0,
        &flow.vel_y,
        &flow.vel_y0,
        &flow.density.r,
        &flow.density.g,
        &flow.density.b,
        &flow.density0.r,
        &flow.density0.g,
        &flow.density0.b,
    ] {
        assert_eq!(buffer, &vec![0.0f32; 30]);
    }
    assert_eq!(flow.dim, (6, 5));
}

#[test]
fn step_keeps_a_resting_density_without_diffusion() {
    let params =
        FluidParams { viscosity: 0.0f32, diffusion_rate: 0.0, diffuse_iters: 3, project_iters: 4 };
    let mut flow = Flow::init_with_params(6, 5, params, &evaluate);
    flow.add_fluid_density(2, 2, (1.0, 0.5, 0.25), &evaluate);
    flow.add_fluid_density(3, 1, (0.0, 2.0, 0.0), &evaluate);
    let before = (flow.density.r.clone(), flow.density.g.clone(), flow.density.b.clone());
    flow.step(1.0 / 30.0, &evaluate, &line_of);
    assert_eq!(inner_sum(&flow.density.r, flow.dim), 1.0);
    assert_eq!(inner_sum(&flow.density.g, flow.dim), 2.5);
    assert_eq!(inner_sum(&flow.density.b, flow.dim), 0.25);
    for y in 1..4 {
        for x in 1..5 {
            let i = Flow::index(&x, &y, &(6, 5));
            assert_eq!(flow.density.r[i], before.0[i]);
            assert_eq!(flow.density.g[i], before.1[i]);
            assert_eq!(flow.density.b[i], before.2[i]);
        }
    }
}

#[test]
fn step_spreads_and_keeps_the_dye() {
    let mut flow = Flow::init(4, 4, &evaluate);
    flow.add_fluid_density(1, 1, (1.0, 0.0, 0.0), &evaluate);
    flow.add_fluid_velocity(1, 1, 5.0, 0.0, &evaluate);
    let before = inner_sum(&flow.density.r, flow.dim);
    assert_eq!(before, 1.0);
    flow.step(1.0 / 30.0, &evaluate, &line_of);
    let after = inner_sum(&flow.density.r, flow.dim);
    assert!((after - before).abs() < 0.001, "mass went from {before} to {after}");
    let at = |x: usize, y: usize| flow.density.r[Flow::index(&x, &y, &(4, 4))];
    assert!(at(1, 1) > 0.0);
    assert!(at(2, 1) > 0.0 || at(1, 2) > 0.0 || at(0, 1) > 0.0 || at(1, 0) > 0.0);
    assert!(at(2, 1) > 0.0);
    assert!(flow.density.r.iter().all(|v| v.is_finite() && *v >= 0.0));
    assert_eq!(flow.density.g, vec![0.0; 16]);
    assert_eq!(flow.density.b, vec![0.0; 16]);
}

#[test]
fn step_is_the_same_on_two_boxes() {
    let run = || {
        let mut flow = Flow::init(9, 7, &evaluate);
        for n in 0..5usize {
            let angle = n as f32 / 60.0;
            flow.add_fluid_velocity_angle_mag(4, 3, angle, 90000.0, &evaluate);
            flow.add_fluid_density(4, 3, (angle * 3.0 % 1.0, 0.5, 0.25 + angle), &evaluate);
            flow.add_fluid_velocity(2 + n, 2, 3.0, -4.0, &evaluate);
            flow.step(1.0 / 30.0, &evaluate, &line_of);
            flow.scale_fluid_density(0.99, &evaluate);
        }
        flow
    };
    let first = run();
    let second = run();
    assert_eq!(bits(&first.vel_x), bits(&second.vel_x));
    assert_eq!(bits(&first.vel_x0), bits(&second.vel_x0));
    assert_eq!(bits(&first.vel_y), bits(&second.vel_y));
    assert_eq!(bits(&first.vel_y0), bits(&second.vel_y0));
    assert_eq!(bits(&first.density.r), bits(&second.density.r));
    assert_eq!(bits(&first.density.g), bits(&second.density.g));
    assert_eq!(bits(&first.density.b), bits(&second.density.b));
    assert_eq!(bits(&first.density0.r), bits(&second.density0.r));
    assert_eq!(bits(&first.density0.g), bits(&second.density0.g));
    assert_eq!(bits(&first.density0.b), bits(&second.density0.b));
    assert!(first.density.r.iter().any(|v| *v != 0.0));
    assert!(first.vel_x.iter().any(|v| *v != 0.0));
}

#[test]
fn step_runs_its_stages_in_order() {
    let params =
        FluidParams { viscosity: 0.001f32, diffusion_rate: 0.002, diffuse_iters: 2, project_iters: 3 };
    let dt = 0.05f32;
    let dim = (6, 5);
    let mut flow = Flow::init_with_params(dim.0, dim.1, params, &evaluate);
    flow.add_fluid_velocity(2, 2, 4.0, -1.0, &evaluate);
    flow.add_fluid_velocity(3, 1, -2.0, 3.0, &evaluate);
    flow.add_fluid_density(2, 2, (1.0, 2.0, 3.0), &evaluate);
    flow.vel_x[14] = 0.5;
    flow.vel_y[15] = -0.25;

    let mut vel_x = flow.vel_x.clone();
    let mut vel_x0 = flow.vel_x0.clone();
    let mut vel_y = flow.vel_y.clone();
    let mut vel_y0 = flow.vel_y0.clone();
    let mut r = flow.density.r.clone();
    let mut r0 = flow.density0.r.clone();
    Flow::diffuse(&Bound::X, &mut vel_x0, &vel_x, 0.001, dt, 2, &dim, &evaluate);
    Flow::diffuse(&Bound::Y, &mut vel_y0, &vel_y, 0.001, dt, 2, &dim, &evaluate);
    Flow::project(&mut vel_x0, &mut vel_y0, &mut vel_x, &mut vel_y, 3, &dim, &evaluate);
    Flow::advect(&Bound::X, &mut vel_x, &vel_x0, &vel_x0, &vel_y0, dt, &dim, &evaluate, &line_of);
    Flow::advect(&Bound::Y, &mut vel_y, &vel_y0, &vel_x0, &vel_y0, dt, &dim, &evaluate, &line_of);
    Flow::project(&mut vel_x, &mut vel_y, &mut vel_x0, &mut vel_y0, 3, &dim, &evaluate);
    Flow::diffuse(&Bound::Neither, &mut r0, &r, 0.002, dt, 2, &dim, &evaluate);
    Flow::advect(&Bound::Neither, &mut r, &r0, &vel_x, &vel_y, dt, &dim, &evaluate, &line_of);

    flow.step(dt, &evaluate, &line_of);
    assert_eq!(bits(&flow.vel_x), bits(&vel_x));
    assert_eq!(bits(&flow.vel_x0), bits(&vel_x0));
    assert_eq!(bits(&flow.vel_y), bits(&vel_y));
    assert_eq!(bits(&flow.vel_y0), bits(&vel_y0));
    assert_eq!(bits(&flow.density.r), bits(&r));
    assert_eq!(bits(&flow.density0.r), bits(&r0));
    assert!(flow.vel_x.iter().any(|v| *v != 0.0));
}

#[test]
fn add_fluid_density_rounds_each_sum() {
    // single precision has no room for 16777217: adding one twice is lost
    // both times, adding two at once is not
    let mut twice = Flow::init(4, 4, &evaluate);
    twice.density.r[5] = 16777216.0;
    twice.add_fluid_density(1, 1, (1.0, 0.0, 0.0), &evaluate);
    twice.add_fluid_density(1, 1, (1.0, 0.0, 0.0), &evaluate);
    let mut once = Flow::init(4, 4, &evaluate);
    once.density.r[5] = 16777216.0;
    once.add_fluid_density(1, 1, (2.0, 0.0, 0.0), &evaluate);
    assert_eq!(twice.density.r[5], 16777216.0);
    assert_eq!(once.density.r[5], 16777218.0);
}

#[test]
fn is_well_formed_counts_the_cells_of_every_buffer() {
    let mut flow = Flow::init(4, 3, &evaluate);
    assert!(flow.is_well_formed());
    flow.density0.g.push(0.0);
    assert!(!flow.is_well_formed());
    flow.density0.g.pop();
    assert!(flow.is_well_formed());
    flow.vel_x.clear();
    assert!(!flow.is_well_formed());
    flow.vel_x = vec![0.0; 12];
    flow.dim = (3, 4);
    assert!(flow.is_well_formed());
    flow.dim = (12, 1);
    assert!(!flow.is_well_formed());
}

#[test]
fn step_keeps_the_box_well_formed() {
    let mut flow = Flow::init(100, 50, &evaluate);
    for n in 0..3usize {
        let angle = n as f32 / 60.0;
        flow.add_fluid_velocity_angle_mag(50, 25, angle, 90000.0, &evaluate);
        flow.add_fluid_density(50, 25, (0.25, 0.5, 0.75), &evaluate);
        flow.step(1.0 / 30.0, &evaluate, &line_of);
        assert!(flow.is_well_formed());
    }
    assert_eq!(flow.dim, (100, 50));
    assert_eq!(flow.fluid_params.diffuse_iters, 3);
    assert_eq!(flow.fluid_params.project_iters, 4);
    assert!(flow.density.r.iter().any(|v| *v > 0.0));
    assert!(flow.density.zip().iter().all(|v| v.is_finite()));
}

#[test]
fn step_on_the_smallest_box() {
    let mut flow = Flow::init(2, 2, &evaluate);
    flow.add_fluid_density(0, 0, (1.0, 1.0, 1.0), &evaluate);
    flow.add_fluid_velocity(1, 1, 1.0, 1.0, &evaluate);
    flow.step(0.1, &evaluate, &line_of);
    assert!(flow.is_well_formed());
    assert!(flow.density.zip().iter().all(|v| v.is_finite()));
    assert!(flow.vel_x.iter().chain(flow.vel_y.iter()).all(|v| v.is_finite()));
}

#[test]
fn step_in_double_precision_stays_close() {
    let mut single = Flow::init(8, 6, &evaluate);
    let mut double = FlowBox::<f64>::init(8, 6, &evaluate_double);
    for _ in 0..4 {
        single.add_fluid_density(3, 3, (1.0, 0.5, 0.25), &evaluate);
        double.add_fluid_density(3, 3, (1.0, 0.5, 0.25), &evaluate_double);
        single.add_fluid_velocity(3, 3, 2.0, -1.0, &evaluate);
        double.add_fluid_velocity(3, 3, 2.0, -1.0, &evaluate_double);
        single.step(1.0 / 32.0, &evaluate, &line_of);
        double.step(1.0 / 32.0, &evaluate_double, &line_of_double);
    }
    for (a, b) in single.density.zip().iter().zip(double.density.zip().iter()) {
        assert!((*a as f64 - *b).abs() < 1.0e-4, "{a} against {b}");
    }
    for (a, b) in single.vel_x.iter().zip(double.vel_x.iter()) {
        assert!((*a as f64 - *b).abs() < 1.0e-4, "{a} against {b}");
    }
}
