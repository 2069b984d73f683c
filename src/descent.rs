use vstd::prelude::*;

verus! {

/// Trial `j` of the line search from `p` is the first that `trial` accepts,
/// and it leads to `q`.
pub open spec fn first_accepted<P, S: Fn(P, u32) -> Option<P>>(trial: S, p: P, j: u32, q: P) -> bool {
    &&& forall|i: u32| i < j ==> trial.ensures((p, i), None::<P>)
    &&& trial.ensures((p, j), Some(q))
}

/// The line search from `p`, over trials `0 .. max_trials`, accepts a step to `q`.
pub open spec fn accepted_step<P, S: Fn(P, u32) -> Option<P>>(
    trial: S,
    p: P,
    q: P,
    max_trials: u32,
) -> bool {
    exists|j: u32| j < max_trials && first_accepted(trial, p, j, q)
}

/// The line search from `p` rejects every one of trials `0 .. max_trials`.
pub open spec fn stalled<P, S: Fn(P, u32) -> Option<P>>(trial: S, p: P, max_trials: u32) -> bool {
    forall|j: u32| j < max_trials ==> trial.ensures((p, j), None::<P>)
}

/// Backtracking line search from `p`: tries steps `0, 1, ..` below
/// `max_trials` in order, and returns the point of the first that `trial`
/// accepts, or `None` where it accepts none.
pub fn line_search<P: Copy, S: Fn(P, u32) -> Option<P>>(p: P, max_trials: u32, trial: &S) -> (r:
    Option<P>)
    requires
        forall|j: u32| j < max_trials ==> trial.requires((p, j)),
    ensures
        match r {
            Some(q) => accepted_step(*trial, p, q, max_trials),
            None => stalled(*trial, p, max_trials),
        },
{
    let mut j: u32 = 0;
    while j < max_trials
        invariant
            forall|j: u32| j < max_trials ==> trial.requires((p, j)),
            j <= max_trials,
            forall|i: u32| i < j ==> trial.ensures((p, i), None::<P>),
        decreases max_trials - j,
    {
        let r = trial(p, j);
        match r {
            Some(q) => {
                assert(first_accepted(*trial, p, j, q));
                return Some(q);
            },
            None => {},
        }
        j += 1;
    }
    None
}

/// Each point of `path` after the first is the step that the line search
/// accepted from the point before it, which had not converged.
pub open spec fn steps_accepted<P, C: Fn(P) -> bool, S: Fn(P, u32) -> Option<P>>(
    path: Seq<P>,
    converged: C,
    trial: S,
    max_trials: u32,
) -> bool {
    forall|k: int|
        0 <= k < path.len() - 1 ==> {
            &&& converged.ensures((#[trigger] path[k],), false)
            &&& accepted_step(trial, path[k], path[k + 1], max_trials)
        }
}

/// A trajectory never rises: where every step that the line search can
/// accept leads to a point that is no higher than the one it leaves (as the
/// sufficient-decrease condition makes it), each point of a trajectory made
/// of accepted steps is no higher than the point before it.
pub proof fn lemma_trajectory_non_increasing<P, C: Fn(P) -> bool, S: Fn(P, u32) -> Option<P>>(
    path: Seq<P>,
    converged: C,
    trial: S,
    max_trials: u32,
    no_higher: spec_fn(P, P) -> bool,
)
    requires
        steps_accepted(path, converged, trial, max_trials),
        forall|p: P, j: u32, q: P| #[trigger] trial.ensures((p, j), Some(q)) ==> no_higher(q, p),
    ensures
        forall|k: int| 0 <= k < path.len() - 1 ==> no_higher(#[trigger] path[k + 1], path[k]),
{
    assert forall|k: int| 0 <= k < path.len() - 1 implies no_higher(#[trigger] path[k + 1], path[k]) by {
        assert(converged.ensures((path[k],), false));
        let j = choose|j: u32| j < max_trials && #[trigger] first_accepted(trial, path[k], j, path[k + 1]);
        assert(trial.ensures((path[k], j), Some(path[k + 1])));
    }
}

/// Gradient descent from `x0` with a backtracking line search.
///
/// Each outer iteration first asks `converged` whether the current point is
/// stationary enough to stop (the gradient norm against the tolerance), and
/// otherwise runs [`line_search`] with `trial`, which tests trial step `j`
/// from the current point against the sufficient-decrease condition and
/// hands back the new point where it holds. At most `max_iter` outer
/// iterations are run.
///
/// The returned trajectory starts with `x0` and holds every accepted point
/// in order. Where the line search accepts no trial the run stops: the next
/// iteration would repeat the same computation from the same point, so
/// going on would only stall.
pub fn gradient_descent<P: Copy, C: Fn(P) -> bool, S: Fn(P, u32) -> Option<P>>(
    x0: P,
    max_iter: usize,
    max_trials: u32,
    converged: C,
    trial: S,
) -> (path: Vec<P>)
    requires
        forall|p: P| converged.requires((p,)),
        forall|p: P, j: u32| trial.requires((p, j)),
    ensures
        1 <= path@.len() <= max_iter + 1,
        path@[0] == x0,
        steps_accepted(path@, converged, trial, max_trials),
        path@.len() < max_iter + 1 ==> {
            ||| converged.ensures((path@.last(),), true)
            ||| stalled(trial, path@.last(), max_trials)
        },
        (forall|b: bool| converged.ensures((x0,), b) ==> b) ==> path@.len() == 1,
{
    let mut path: Vec<P> = Vec::new();
    path.push(x0);
    let mut x = x0;
    let mut i: usize = 0;
    let mut done = false;
    while i < max_iter && !done
        invariant
            forall|p: P| converged.requires((p,)),
            forall|p: P, j: u32| trial.requires((p, j)),
            i <= max_iter,
            path@.len() == i + 1,
            path@[0] == x0,
            x == path@.last(),
            steps_accepted(path@, converged, trial, max_trials),
            done ==> {
                ||| converged.ensures((x,), true)
                ||| stalled(trial, x, max_trials)
            },
        decreases max_iter - i, if done { 0int } else { 1int },
    {
        if converged(x) {
            done = true;
        } else {
            match line_search(x, max_trials, &trial) {
                Some(q) => {
                    let ghost before = path@;
                    path.push(q);
                    x = q;
                    i += 1;
                    assert forall|k: int| 0 <= k < path@.len() - 1 implies {
                        &&& converged.ensures((#[trigger] path@[k],), false)
                        &&& accepted_step(trial, path@[k], path@[k + 1], max_trials)
                    } by {
                        if k < before.len() - 1 {
                            assert(path@[k] == before[k] && path@[k + 1] == before[k + 1]);
                        }
                    }
                },
                None => {
                    done = true;
                },
            }
        }
    }
    path
}

} // verus!
