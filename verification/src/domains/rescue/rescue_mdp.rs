use vstd::prelude::*;

use super::rescue_action::{get_di, get_dj, spec_di, spec_dj, RescueAction};
use super::rescue_state::{ObstacleStatus, RescueState};
use crate::common::coordinate2::Coordinate2;

verus! {

/// How easily the rescuer clears an obstacle: with `Low` compatibility an
/// attempt succeeds with probability 2/10, with `High` with 8/10.
#[derive(Eq, PartialEq, Debug, Copy, Clone, Hash, Structural)]
pub enum ObstacleCompatibility {
    Low,
    High,
}

/// The obstacle status that bit `bit` of a state index stands for.
pub open spec fn status_of_bit(bit: int) -> ObstacleStatus {
    if bit == 0 {
        ObstacleStatus::Removed
    } else {
        ObstacleStatus::NotRemoved
    }
}

/// `s` is the `k`-th state of a grid of the given width: states are listed
/// by row, then column, then the status of each obstacle in turn, `Removed`
/// before `NotRemoved`.
pub open spec fn is_state_at(s: RescueState, width: nat, k: int) -> bool {
    &&& s.coordinate.i == k / (8 * width) as int
    &&& s.coordinate.j == (k / 8) % width as int
    &&& s.obstacles_status@ == seq![
        status_of_bit((k / 4) % 2),
        status_of_bit((k / 2) % 2),
        status_of_bit(k % 2),
    ]
}

/// The position of state `s` in that listing.
pub open spec fn spec_state_index(s: RescueState, width: nat) -> int {
    let bit = |o: ObstacleStatus|
        if o == ObstacleStatus::Removed {
            0int
        } else {
            1int
        };
    8 * (s.coordinate.i * width + s.coordinate.j) + 4 * bit(s.obstacles_status@[0]) + 2 * bit(
        s.obstacles_status@[1],
    ) + bit(s.obstacles_status@[2])
}

/// The number of the last obstacle placed at cell `(i, j)`, if any.
pub open spec fn last_obstacle_at(obstacles: Seq<(usize, usize)>, i: int, j: int) -> Option<usize>
    decreases obstacles.len(),
{
    if obstacles.len() == 0 {
        None
    } else if obstacles.last().0 == i && obstacles.last().1 == j {
        Some((obstacles.len() - 1) as usize)
    } else {
        last_obstacle_at(obstacles.drop_last(), i, j)
    }
}

/// Total probability, in tenths, of a list of outcomes.
pub open spec fn prob_sum(outcomes: Seq<(RescueState, u32)>) -> int
    decreases outcomes.len(),
{
    if outcomes.len() == 0 {
        0
    } else {
        prob_sum(outcomes.drop_last()) + outcomes.last().1
    }
}

/// Probability, in tenths, of the first outcome equal to `target`, or 0.
pub open spec fn spec_first_prob(outcomes: Seq<(RescueState, u32)>, target: RescueState) -> int
    decreases outcomes.len(),
{
    if outcomes.len() == 0 {
        0
    } else if outcomes[0].0 == target {
        outcomes[0].1 as int
    } else {
        spec_first_prob(outcomes.drop_first(), target)
    }
}

/// A grid where a rescuer walks to a victim; obstacles block cells until
/// they are removed.  Probabilities are counted in tenths.
#[derive(PartialEq, Debug)]
pub struct RescueMDP {
    height: usize,
    width: usize,
    is_obstacled: Vec<Vec<Option<usize>>>,
    all_states: Vec<RescueState>,
    all_actions: [RescueAction; 5],
    victim_coordinate: Coordinate2,
    obstacle_compatibility: ObstacleCompatibility,
}

impl RescueMDP {
    #[verifier::type_invariant]
    closed spec fn wf(&self) -> bool {
        self.well_formed()
    }

    /// The grid's shape and its state and action lists agree.
    pub closed spec fn well_formed(&self) -> bool {
        &&& self.height <= i32::MAX
        &&& self.width <= i32::MAX
        &&& self.is_obstacled@.len() == self.height
        &&& forall|r: int| 0 <= r < self.height ==> #[trigger] self.is_obstacled@[r]@.len() == self.width
        &&& self.all_states@.len() == self.height * self.width * 8
        &&& forall|k: int|
            0 <= k < self.all_states@.len() ==> is_state_at(
                #[trigger] self.all_states@[k],
                self.width as nat,
                k,
            )
        &&& self.all_actions@ == seq![
            RescueAction::North,
            RescueAction::South,
            RescueAction::East,
            RescueAction::West,
            RescueAction::RemoveObstacle,
        ]
    }

    pub closed spec fn spec_height(&self) -> nat {
        self.height as nat
    }

    pub closed spec fn spec_width(&self) -> nat {
        self.width as nat
    }

    pub closed spec fn victim(&self) -> Coordinate2 {
        self.victim_coordinate
    }

    pub closed spec fn compatibility(&self) -> ObstacleCompatibility {
        self.obstacle_compatibility
    }

    /// The number of the obstacle in cell `(i, j)`, if any.
    pub closed spec fn obstacle_at(&self, i: int, j: int) -> Option<usize> {
        self.is_obstacled@[i]@[j]
    }

    /// Every state of the grid, in enumeration order.
    pub closed spec fn states(&self) -> Seq<RescueState> {
        self.all_states@
    }

    /// The five actions, in enumeration order.
    pub closed spec fn actions(&self) -> Seq<RescueAction> {
        self.all_actions@
    }

    /// Whether cell `(i, j)` lies on the grid.
    pub open spec fn in_bounds(&self, i: int, j: int) -> bool {
        0 <= i < self.spec_height() && 0 <= j < self.spec_width()
    }

    pub open spec fn spec_is_terminal(&self, s: RescueState) -> bool {
        s.coordinate == self.victim()
    }

    /// The state reached by moving: terminal states and moves off the grid
    /// stay put.
    pub open spec fn spec_next(&self, s: RescueState, a: RescueAction) -> RescueState {
        let ni = s.coordinate.i + spec_di(a);
        let nj = s.coordinate.j + spec_dj(a);
        if self.spec_is_terminal(s) || !self.in_bounds(ni, nj) {
            s
        } else {
            RescueState {
                coordinate: Coordinate2 { i: ni as i32, j: nj as i32 },
                obstacles_status: s.obstacles_status,
            }
        }
    }

    /// Outcomes of `a` in `s` with their probabilities in tenths.  In a cell
    /// whose obstacle still stands only `RemoveObstacle` does anything: it
    /// clears the obstacle with the compatibility's probability.
    pub open spec fn spec_p_mass(&self, s: RescueState, a: RescueAction) -> Seq<(RescueState, u32)> {
        match self.obstacle_at(s.coordinate.i as int, s.coordinate.j as int) {
            Some(id) => {
                if s.obstacles_status@[id as int] == ObstacleStatus::Removed {
                    seq![(self.spec_next(s, a), 10u32)]
                } else if a == RescueAction::RemoveObstacle {
                    let cleared = RescueState {
                        coordinate: s.coordinate,
                        obstacles_status: vstd::array::spec_array_update(
                            s.obstacles_status,
                            id as int,
                            ObstacleStatus::Removed,
                        ),
                    };
                    match self.compatibility() {
                        ObstacleCompatibility::Low => seq![(cleared, 2u32), (s, 8u32)],
                        ObstacleCompatibility::High => seq![(cleared, 8u32), (s, 2u32)],
                    }
                } else {
                    seq![(s, 10u32)]
                }
            },
            None => seq![(self.spec_next(s, a), 10u32)],
        }
    }

    /// What `p_mass` needs of a state: it lies on the grid, and the obstacle
    /// in its cell, if any, is one of the three the state tracks.
    pub open spec fn state_supported(&self, s: RescueState) -> bool {
        &&& self.in_bounds(s.coordinate.i as int, s.coordinate.j as int)
        &&& (self.obstacle_at(s.coordinate.i as int, s.coordinate.j as int) matches Some(id)
            ==> id < 3)
    }

    pub fn new(
        height: usize,
        width: usize,
        obstacles: Vec<(usize, usize)>,
        victim_coordinate: Coordinate2,
        obstacle_compatibility: ObstacleCompatibility,
    ) -> (r: RescueMDP)
        requires
            height <= i32::MAX,
            width <= i32::MAX,
            height * width * 8 <= usize::MAX,
            forall|k: int|
                0 <= k < obstacles@.len() ==> (#[trigger] obstacles@[k]).0 < height
                    && obstacles@[k].1 < width,
        ensures
            r.well_formed(),
            r.spec_height() == height,
            r.spec_width() == width,
            r.victim() == victim_coordinate,
            r.compatibility() == obstacle_compatibility,
            forall|i: int, j: int|
                0 <= i < height && 0 <= j < width ==> #[trigger] r.obstacle_at(i, j)
                    == last_obstacle_at(obstacles@, i, j),
            r.states().len() == height * width * 8,
            forall|k: int|
                0 <= k < r.states().len() ==> is_state_at(#[trigger] r.states()[k], width as nat, k),
            r.actions() == seq![
                RescueAction::North,
                RescueAction::South,
                RescueAction::East,
                RescueAction::West,
                RescueAction::RemoveObstacle,
            ],
    {
        let mut is_obstacled: Vec<Vec<Option<usize>>> = Vec::new();
        for r in 0..height
            invariant
                is_obstacled@.len() == r,
                forall|rr: int|
                    0 <= rr < r ==> (#[trigger] is_obstacled@[rr])@.len() == width && forall|
                        c: int,
                    |
                        0 <= c < width ==> #[trigger] is_obstacled@[rr]@[c] == None::<usize>,
        {
            let mut row: Vec<Option<usize>> = Vec::new();
            for c in 0..width
                invariant
                    row@.len() == c,
                    forall|cc: int| 0 <= cc < c ==> #[trigger] row@[cc] == None::<usize>,
            {
                row.push(None);
            }
            is_obstacled.push(row);
        }
        for id in 0..obstacles.len()
            invariant
                is_obstacled@.len() == height,
                forall|k: int|
                    0 <= k < obstacles@.len() ==> (#[trigger] obstacles@[k]).0 < height
                        && obstacles@[k].1 < width,
                forall|rr: int|
                    0 <= rr < height ==> (#[trigger] is_obstacled@[rr])@.len() == width,
                forall|i: int, j: int|
                    0 <= i < height && 0 <= j < width ==> #[trigger] is_obstacled@[i]@[j]
                        == last_obstacle_at(obstacles@.take(id as int), i, j),
        {
            let (i, j) = obstacles[id];
            let ghost before = is_obstacled@;
            is_obstacled[i][j] = Some(id);
            proof {
                let taken = obstacles@.take(id + 1);
                assert(taken.drop_last() =~= obstacles@.take(id as int));
                assert(taken.last() == obstacles@[id as int]);
                assert forall|ii: int, jj: int|
                    0 <= ii < height && 0 <= jj < width implies #[trigger] is_obstacled@[ii]@[jj]
                    == last_obstacle_at(taken, ii, jj) by {
                    if ii == i && jj == j {
                    } else {
                        assert(is_obstacled@[ii]@[jj] == before[ii]@[jj]);
                    }
                }
            }
        }
        assert(obstacles@.take(obstacles@.len() as int) =~= obstacles@);
        let n = height * width * 8;
        let mut all_states: Vec<RescueState> = Vec::new();
        for k in 0..n
            invariant
                n == height * width * 8,
                height <= i32::MAX,
                width <= i32::MAX,
                all_states@.len() == k,
                forall|kk: int|
                    0 <= kk < k ==> is_state_at(#[trigger] all_states@[kk], width as nat, kk),
        {
            assert(0 < width * 8 <= height * width * 8) by (nonlinear_arith)
                requires
                    k < height * width * 8,
            ;
            let w8 = width * 8;
            let i = k / w8;
            let j = (k / 8) % width;
            assert(i < height) by (nonlinear_arith)
                requires
                    k < height * width * 8,
                    w8 == width * 8,
                    i == k / w8,
                    w8 > 0,
            ;
            let s0 = if (k / 4) % 2 == 0 {
                ObstacleStatus::Removed
            } else {
                ObstacleStatus::NotRemoved
            };
            let s1 = if (k / 2) % 2 == 0 {
                ObstacleStatus::Removed
            } else {
                ObstacleStatus::NotRemoved
            };
            let s2 = if k % 2 == 0 {
                ObstacleStatus::Removed
            } else {
                ObstacleStatus::NotRemoved
            };
            assert(j < width) by (nonlinear_arith)
                requires
                    width > 0,
                    j == (k / 8) % width,
            ;
            let s = RescueState::new(Coordinate2::new(i as i32, j as i32), [s0, s1, s2]);
            assert(8 * width == w8);
            assert(s.obstacles_status@ =~= seq![
                status_of_bit((k as int / 4) % 2),
                status_of_bit((k as int / 2) % 2),
                status_of_bit(k as int % 2),
            ]);
            assert(is_state_at(s, width as nat, k as int));
            all_states.push(s);
        }
        RescueMDP {
            width: width,
            height: height,
            all_states: all_states,
            all_actions: [
                RescueAction::North,
                RescueAction::South,
                RescueAction::East,
                RescueAction::West,
                RescueAction::RemoveObstacle,
            ],
            is_obstacled: is_obstacled,
            victim_coordinate: victim_coordinate,
            obstacle_compatibility: obstacle_compatibility,
        }
    }
}


impl RescueMDP {
    pub fn within_bound(&self, i: i32, j: i32) -> (r: bool)
        ensures
            r == self.in_bounds(i as int, j as int),
    {
        proof {
            use_type_invariant(self);
        }
        (i >= 0) && (i < self.height as i32) && (j >= 0) && (j < self.width as i32)
    }

    /// Whether `p_mass` can take `s`: `s` lies on the grid and the obstacle
    /// in its cell, if any, is one of the three a state tracks.
    pub fn supports(&self, s: &RescueState) -> (r: bool)
        ensures
            r == self.state_supported(*s),
    {
        proof {
            use_type_invariant(self);
        }
        if !self.within_bound(s.coordinate.i, s.coordinate.j) {
            return false;
        }
        match self.is_obstacled[s.coordinate.i as usize][s.coordinate.j as usize] {
            Some(id) => id < 3,
            None => true,
        }
    }

    /// Every grid satisfies `well_formed`: this brings the fact into a
    /// caller's proof, for the laws below that are stated over it.
    pub fn prove_well_formed(&self)
        ensures
            self.well_formed(),
    {
        proof {
            use_type_invariant(self);
        }
    }

    pub fn is_terminal(&self, s: &RescueState) -> (r: bool)
        ensures
            r == self.spec_is_terminal(*s),
            r == (s.coordinate.i == self.victim().i && s.coordinate.j == self.victim().j),
    {
        s.coordinate == self.victim_coordinate
    }

    pub fn next(&self, s: &RescueState, a: &RescueAction) -> (r: RescueState)
        requires
            i32::MIN <= s.coordinate.i + spec_di(*a) <= i32::MAX,
            i32::MIN <= s.coordinate.j + spec_dj(*a) <= i32::MAX,
        ensures
            r == self.spec_next(*s, *a),
    {
        proof {
            use_type_invariant(self);
        }
        let di = get_di(a);
        let dj = get_dj(a);
        let next_coordinate = Coordinate2::new(s.coordinate.i + di, s.coordinate.j + dj);
        if self.is_terminal(s) || !self.within_bound(next_coordinate.i, next_coordinate.j) {
            *s
        } else {
            RescueState::new(next_coordinate, s.obstacles_status)
        }
    }

    pub fn enumerate_states(&self) -> (r: &[RescueState])
        ensures
            r@ == self.states(),
    {
        self.all_states.as_slice()
    }

    pub fn num_states(&self) -> (r: usize)
        ensures
            r == self.states().len(),
            r == self.spec_height() * self.spec_width() * 8,
    {
        proof {
            use_type_invariant(self);
        }
        self.all_states.len()
    }

    pub fn id_to_state(&self, id: usize) -> (r: &RescueState)
        requires
            id < self.states().len(),
        ensures
            *r == self.states()[id as int],
    {
        &self.all_states[id]
    }

    pub fn enumerate_actions(&self) -> (r: &[RescueAction])
        ensures
            r@ == self.actions(),
    {
        self.all_actions.as_slice()
    }

    pub fn num_actions(&self) -> (r: usize)
        ensures
            r == self.actions().len(),
            r == 5,
    {
        proof {
            use_type_invariant(self);
        }
        5
    }

    pub fn id_to_action(&self, id: usize) -> (r: &RescueAction)
        requires
            id < self.actions().len(),
        ensures
            *r == self.actions()[id as int],
    {
        &self.all_actions[id]
    }

    /// The rescuer starts in cell (2, 1) with every obstacle standing.
    pub fn initial_state(&self) -> (r: RescueState)
        ensures
            r.coordinate == (Coordinate2 { i: 2, j: 1 }),
            r.obstacles_status@ == seq![ObstacleStatus::NotRemoved; 3],
    {
        let r = RescueState::new(
            Coordinate2::new(2, 1),
            [ObstacleStatus::NotRemoved, ObstacleStatus::NotRemoved, ObstacleStatus::NotRemoved],
        );
        assert(r.obstacles_status@ =~= seq![ObstacleStatus::NotRemoved; 3]);
        r
    }

    /// The outcomes of `a` in `s`, each with its probability in tenths.
    pub fn p_mass(&self, s: &RescueState, a: &RescueAction) -> (r: Vec<(RescueState, u32)>)
        requires
            self.state_supported(*s),
        ensures
            r@ == self.spec_p_mass(*s, *a),
    {
        proof {
            use_type_invariant(self);
        }
        let mut r: Vec<(RescueState, u32)> = Vec::new();
        let cell = self.is_obstacled[s.coordinate.i as usize][s.coordinate.j as usize];
        if let Some(id) = cell {
            if s.obstacles_status[id] == ObstacleStatus::Removed {
                r.push((self.next(s, a), 10));
            } else {
                let mut new_status = s.obstacles_status;
                new_status[id] = ObstacleStatus::Removed;
                proof {
                    broadcast use vstd::array::group_array_axioms;

                    assert(new_status =~= vstd::array::spec_array_update(
                        s.obstacles_status,
                        id as int,
                        ObstacleStatus::Removed,
                    ));
                }
                match a {
                    RescueAction::RemoveObstacle => match self.obstacle_compatibility {
                        ObstacleCompatibility::Low => {
                            r.push((RescueState::new(s.coordinate, new_status), 2));
                            r.push((*s, 8));
                        },
                        ObstacleCompatibility::High => {
                            r.push((RescueState::new(s.coordinate, new_status), 8));
                            r.push((*s, 2));
                        },
                    },
                    _ => {
                        r.push((*s, 10));
                    },
                }
            }
        } else {
            r.push((self.next(s, a), 10));
        }
        assert(r@ =~= self.spec_p_mass(*s, *a));
        r
    }

    /// One step costs 1 until the victim is reached, 0 afterwards.
    pub fn cost(&self, s: &RescueState, _a: &RescueAction) -> (r: u32)
        ensures
            r == (if self.spec_is_terminal(*s) {
                0u32
            } else {
                1u32
            }),
            r == (if s.coordinate.i == self.victim().i && s.coordinate.j == self.victim().j {
                0u32
            } else {
                1u32
            }),
    {
        if self.is_terminal(s) {
            0
        } else {
            1
        }
    }

    /// The cost of a transition; it depends on the source state only.
    pub fn d_cost(&self, s: &RescueState, _a: &RescueAction, _ss: &RescueState) -> (r: u32)
        ensures
            r == (if self.spec_is_terminal(*s) {
                0u32
            } else {
                1u32
            }),
            r == (if s.coordinate.i == self.victim().i && s.coordinate.j == self.victim().j {
                0u32
            } else {
                1u32
            }),
    {
        if self.is_terminal(s) {
            0
        } else {
            1
        }
    }

    /// The probability, in tenths, of reaching `stt` from `st` under `a`.
    pub fn p(&self, st: &RescueState, a: &RescueAction, stt: &RescueState) -> (r: u32)
        requires
            self.state_supported(*st),
        ensures
            r == spec_first_prob(self.spec_p_mass(*st, *a), *stt),
    {
        let outcomes = self.p_mass(st, a);
        let mut k: usize = 0;
        assert(outcomes@.skip(0) =~= outcomes@);
        while k < outcomes.len()
            invariant
                outcomes@ == self.spec_p_mass(*st, *a),
                k <= outcomes@.len(),
                spec_first_prob(outcomes@, *stt) == spec_first_prob(outcomes@.skip(k as int), *stt),
            decreases outcomes@.len() - k,
        {
            assert(outcomes@.skip(k as int).drop_first() =~= outcomes@.skip(k + 1));
            if outcomes[k].0.same_as(stt) {
                proof {
                    broadcast use vstd::array::group_array_axioms;

                    assert(outcomes@[k as int].0.obstacles_status =~= stt.obstacles_status);
                }
                return outcomes[k].1;
            }
            proof {
                if outcomes@[k as int].0 == *stt {
                    assert(outcomes@[k as int].0.obstacles_status@ == stt.obstacles_status@);
                }
            }
            k = k + 1;
        }
        0
    }
}

impl Clone for RescueMDP {
    fn clone(&self) -> (r: Self)
        ensures
            r.well_formed(),
            r.spec_height() == self.spec_height(),
            r.spec_width() == self.spec_width(),
            r.victim() == self.victim(),
            r.compatibility() == self.compatibility(),
            forall|i: int, j: int|
                self.in_bounds(i, j) ==> #[trigger] r.obstacle_at(i, j) == self.obstacle_at(i, j),
            r.states() == self.states(),
            r.actions() == self.actions(),
    {
        proof {
            use_type_invariant(self);
        }
        let mut is_obstacled: Vec<Vec<Option<usize>>> = Vec::new();
        for r in 0..self.is_obstacled.len()
            invariant
                self.well_formed(),
                is_obstacled@.len() == r,
                forall|rr: int|
                    0 <= rr < r ==> (#[trigger] is_obstacled@[rr])@ == self.is_obstacled@[rr]@,
        {
            let mut row: Vec<Option<usize>> = Vec::new();
            let n = self.is_obstacled[r].len();
            for c in 0..n
                invariant
                    n == self.is_obstacled@[r as int]@.len(),
                    r < self.is_obstacled@.len(),
                    row@ == self.is_obstacled@[r as int]@.take(c as int),
            {
                row.push(self.is_obstacled[r][c]);
                assert(row@ =~= self.is_obstacled@[r as int]@.take(c + 1));
            }
            assert(row@ =~= self.is_obstacled@[r as int]@);
            is_obstacled.push(row);
        }
        let mut all_states: Vec<RescueState> = Vec::new();
        for k in 0..self.all_states.len()
            invariant
                all_states@ == self.all_states@.take(k as int),
        {
            all_states.push(self.all_states[k]);
            assert(all_states@ =~= self.all_states@.take(k + 1));
        }
        assert(all_states@ =~= self.all_states@);
        RescueMDP {
            height: self.height,
            width: self.width,
            is_obstacled: is_obstacled,
            all_states: all_states,
            all_actions: self.all_actions,
            victim_coordinate: self.victim_coordinate,
            obstacle_compatibility: self.obstacle_compatibility,
        }
    }
}

/// The outcomes of every step form a probability distribution: their
/// probabilities add up to ten tenths.  Every outcome stays on the grid,
/// keeps cleared obstacles cleared, and at the victim's cell keeps the
/// rescuer where it is.
pub proof fn lemma_p_mass_is_distribution(mdp: &RescueMDP, s: RescueState, a: RescueAction)
    requires
        mdp.well_formed(),
        mdp.state_supported(s),
    ensures
        prob_sum(mdp.spec_p_mass(s, a)) == 10,
        forall|k: int|
            0 <= k < mdp.spec_p_mass(s, a).len() ==> {
                let ss = (#[trigger] mdp.spec_p_mass(s, a)[k]).0;
                &&& mdp.in_bounds(ss.coordinate.i as int, ss.coordinate.j as int)
                &&& forall|o: int|
                    0 <= o < 3 && s.obstacles_status@[o] == ObstacleStatus::Removed
                        ==> ss.obstacles_status@[o] == ObstacleStatus::Removed
                &&& mdp.spec_is_terminal(s) ==> ss.coordinate == s.coordinate
            },
{
    broadcast use vstd::array::group_array_axioms;

    let outcomes = mdp.spec_p_mass(s, a);
    assert(prob_sum(outcomes) == 10) by {
        reveal_with_fuel(prob_sum, 3);
    }
    let next = mdp.spec_next(s, a);
    assert(mdp.in_bounds(next.coordinate.i as int, next.coordinate.j as int));
    assert(next.obstacles_status == s.obstacles_status);
    assert(mdp.spec_is_terminal(s) ==> next == s);
    if let Some(id) = mdp.obstacle_at(s.coordinate.i as int, s.coordinate.j as int) {
        let cleared = vstd::array::spec_array_update(
            s.obstacles_status,
            id as int,
            ObstacleStatus::Removed,
        );
        assert(cleared@ == s.obstacles_status@.update(id as int, ObstacleStatus::Removed));
    }
}

/// Every state on the grid appears in the state list, at the position
/// `spec_state_index` gives.
pub proof fn lemma_state_enumeration_complete(mdp: &RescueMDP, s: RescueState)
    requires
        mdp.well_formed(),
        mdp.in_bounds(s.coordinate.i as int, s.coordinate.j as int),
    ensures
        0 <= spec_state_index(s, mdp.spec_width()) < mdp.states().len(),
        mdp.states()[spec_state_index(s, mdp.spec_width())] == s,
{
    broadcast use vstd::array::group_array_axioms;

    let w = mdp.spec_width() as int;
    let h = mdp.spec_height() as int;
    let i = s.coordinate.i as int;
    let j = s.coordinate.j as int;
    let bit = |o: ObstacleStatus|
        if o == ObstacleStatus::Removed {
            0int
        } else {
            1int
        };
    let b0 = bit(s.obstacles_status@[0]);
    let b1 = bit(s.obstacles_status@[1]);
    let b2 = bit(s.obstacles_status@[2]);
    let cell = i * w + j;
    let k = spec_state_index(s, mdp.spec_width());
    assert(k == 8 * cell + 4 * b0 + 2 * b1 + b2);
    assert(0 <= cell < h * w) by (nonlinear_arith)
        requires
            0 <= i < h,
            0 <= j < w,
            cell == i * w + j,
    ;
    assert(0 <= k < h * w * 8) by (nonlinear_arith)
        requires
            0 <= cell < h * w,
            k == 8 * cell + 4 * b0 + 2 * b1 + b2,
            0 <= b0 <= 1,
            0 <= b1 <= 1,
            0 <= b2 <= 1,
    ;
    assert(k == i * (8 * w) + (8 * j + 4 * b0 + 2 * b1 + b2)) by (nonlinear_arith)
        requires
            k == 8 * cell + 4 * b0 + 2 * b1 + b2,
            cell == i * w + j,
    ;
    vstd::arithmetic::div_mod::lemma_fundamental_div_mod_converse(
        k,
        8 * w,
        i,
        8 * j + 4 * b0 + 2 * b1 + b2,
    );
    vstd::arithmetic::div_mod::lemma_fundamental_div_mod_converse(
        k,
        8,
        cell,
        4 * b0 + 2 * b1 + b2,
    );
    vstd::arithmetic::div_mod::lemma_fundamental_div_mod_converse(cell, w, i, j);
    vstd::arithmetic::div_mod::lemma_fundamental_div_mod_converse(
        k,
        4,
        2 * cell + b0,
        2 * b1 + b2,
    );
    vstd::arithmetic::div_mod::lemma_fundamental_div_mod_converse(2 * cell + b0, 2, cell, b0);
    vstd::arithmetic::div_mod::lemma_fundamental_div_mod_converse(
        k,
        2,
        4 * cell + 2 * b0 + b1,
        b2,
    );
    vstd::arithmetic::div_mod::lemma_fundamental_div_mod_converse(
        4 * cell + 2 * b0 + b1,
        2,
        2 * cell + b0,
        b1,
    );
    let t = mdp.states()[k];
    assert(is_state_at(t, w as nat, k));
    assert(t.obstacles_status =~= s.obstacles_status);
}

/// The rescuer's goal is the victim's cell itself: a state is terminal
/// exactly when both its row and its column are the victim's.
pub proof fn lemma_goal_is_victim_cell(mdp: &RescueMDP, s: RescueState)
    ensures
        mdp.spec_is_terminal(s) <==> (s.coordinate.i == mdp.victim().i && s.coordinate.j
            == mdp.victim().j),
        (s.coordinate.i != mdp.victim().i || s.coordinate.j != mdp.victim().j)
            ==> !mdp.spec_is_terminal(s),
{
}

/// Away from the victim, each of the four moves takes the rescuer one cell
/// in its own direction (north is one row up, east one column right) when
/// that cell is on the grid, and leaves it in place otherwise; clearing an
/// obstacle never moves it.  No move changes the obstacles, and at the
/// victim's cell nothing moves at all.
pub proof fn lemma_moves_go_one_cell(mdp: &RescueMDP, s: RescueState, a: RescueAction)
    requires
        mdp.well_formed(),
        mdp.in_bounds(s.coordinate.i as int, s.coordinate.j as int),
    ensures
        mdp.spec_next(s, a).obstacles_status == s.obstacles_status,
        s.coordinate == mdp.victim() ==> mdp.spec_next(s, a) == s,
        a == RescueAction::RemoveObstacle ==> mdp.spec_next(s, a).coordinate == s.coordinate,
        s.coordinate != mdp.victim() && a == RescueAction::North ==> if s.coordinate.i >= 1 {
            mdp.spec_next(s, a).coordinate.i == s.coordinate.i - 1 && mdp.spec_next(
                s,
                a,
            ).coordinate.j == s.coordinate.j
        } else {
            mdp.spec_next(s, a).coordinate == s.coordinate
        },
        s.coordinate != mdp.victim() && a == RescueAction::South ==> if s.coordinate.i + 1
            < mdp.spec_height() {
            mdp.spec_next(s, a).coordinate.i == s.coordinate.i + 1 && mdp.spec_next(
                s,
                a,
            ).coordinate.j == s.coordinate.j
        } else {
            mdp.spec_next(s, a).coordinate == s.coordinate
        },
        s.coordinate != mdp.victim() && a == RescueAction::West ==> if s.coordinate.j >= 1 {
            mdp.spec_next(s, a).coordinate.i == s.coordinate.i && mdp.spec_next(
                s,
                a,
            ).coordinate.j == s.coordinate.j - 1
        } else {
            mdp.spec_next(s, a).coordinate == s.coordinate
        },
        s.coordinate != mdp.victim() && a == RescueAction::East ==> if s.coordinate.j + 1
            < mdp.spec_width() {
            mdp.spec_next(s, a).coordinate.i == s.coordinate.i && mdp.spec_next(
                s,
                a,
            ).coordinate.j == s.coordinate.j + 1
        } else {
            mdp.spec_next(s, a).coordinate == s.coordinate
        },
{
}

} // verus!
