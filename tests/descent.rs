use std::f64::consts::PI;
use surface_descent::descent::{gradient_descent, line_search};

const ALPHA: f64 = 0.01;
const BETA: f64 = 0.8;
const TOL: f64 = 1e-6;

#[derive(Clone, Copy, Debug, PartialEq)]
struct State {
    x: [f64; 2],
    fx: f64,
    g: [f64; 2],
}

fn bowl(x: &[f64; 2]) -> f64 {
    x[0] * x[0] + x[1] * x[1]
}

fn bowl_gradient(x: &[f64; 2]) -> [f64; 2] {
    [2.0 * x[0], 2.0 * x[1]]
}

fn rastrigin(x: &[f64; 2]) -> f64 {
    20.0 + x[0].powi(2) - 10.0 * (2.0 * PI * x[0]).cos() + x[1].powi(2)
        - 10.0 * (2.0 * PI * x[1]).cos()
}

fn rastrigin_gradient(x: &[f64; 2]) -> [f64; 2] {
    let pi2 = 2.0 * PI;
    [
        2.0 * x[0] + 10.0 * pi2 * (pi2 * x[0]).sin(),
        2.0 * x[1] + 10.0 * pi2 * (pi2 * x[1]).sin(),
    ]
}

fn trials() -> u32 {
    let mut n: u32 = 0;
    let mut t = 1.0;
    while t > 1e-10 {
        n += 1;
        t *= BETA;
    }
    n
}

fn run(f: fn(&[f64; 2]) -> f64, grad: fn(&[f64; 2]) -> [f64; 2], x0: [f64; 2], max_iter: usize)
    -> Vec<State> {
    let start = State { x: x0, fx: f(&x0), g: grad(&x0) };
    let converged = |p: State| (p.g[0] * p.g[0] + p.g[1] * p.g[1]).sqrt() < TOL;
    let trial = move |p: State, j: u32| {
        let mut t = 1.0;
        for _ in 0..j {
            t *= BETA;
        }
        let dot = p.g[0] * p.g[0] + p.g[1] * p.g[1];
        let x = [p.x[0] - t * p.g[0], p.x[1] - t * p.g[1]];
        let fx = f(&x);
        if fx <= p.fx - ALPHA * t * dot {
            Some(State { x, fx, g: grad(&x) })
        } else {
            None
        }
    };
    gradient_descent(start, max_iter, trials(), converged, trial)
}

#[test]
fn stationary_start_gives_one_point() {
    let path = run(rastrigin, rastrigin_gradient, [0.0, 0.0], 2000);
    assert_eq!(path.len(), 1);
    assert_eq!(path[0].x, [0.0, 0.0]);
    assert_eq!(path[0].fx, 0.0);
    assert_eq!(path[0].g, [0.0, 0.0]);
}

#[test]
fn bowl_descent_reaches_the_origin() {
    let path = run(bowl, bowl_gradient, [5.0, 5.0], 2000);
    assert!(path.len() >= 2 && path.len() <= 2001);
    assert_eq!(path[0].x, [5.0, 5.0]);
    let last = path[path.len() - 1];
    assert!((last.g[0] * last.g[0] + last.g[1] * last.g[1]).sqrt() < TOL);
    assert!(last.x[0].abs() < TOL && last.x[1].abs() < TOL);
}

#[test]
fn values_never_rise_along_the_trajectory() {
    for x0 in [[2.3, -1.7], [0.4, 0.45], [-3.9, 4.2]] {
        let path = run(rastrigin, rastrigin_gradient, x0, 500);
        for w in path.windows(2) {
            assert!(w[1].fx <= w[0].fx);
        }
    }
}

#[test]
fn iteration_cap_bounds_the_trajectory() {
    let path = run(rastrigin, rastrigin_gradient, [2.3, -1.7], 3);
    assert!(path.len() <= 4);
    let path = run(bowl, bowl_gradient, [5.0, 5.0], 0);
    assert_eq!(path.len(), 1);
}

#[test]
fn stalled_line_search_ends_the_run() {
    let path = gradient_descent(7i64, 10, 5, |_p: i64| false, |_p: i64, _j: u32| None);
    assert_eq!(path, vec![7]);
}

#[test]
fn each_step_is_the_first_accepted_trial() {
    let path = gradient_descent(
        100i64,
        10,
        8,
        |p: i64| p <= 10,
        |p: i64, j: u32| if j >= 2 { Some(p - 30) } else { None },
    );
    assert_eq!(path, vec![100, 70, 40, 10]);
}

#[test]
fn line_search_takes_the_first_acceptable_trial() {
    let tried = |p: i64, j: u32| if j == 3 || j == 5 { Some(p + j as i64) } else { None };
    assert_eq!(line_search(0i64, 8, &tried), Some(3));
    assert_eq!(line_search(0i64, 3, &tried), None);
    assert_eq!(line_search(0i64, 0, &tried), None);
}
