use vstd::prelude::*;

use super::grid_status::{spec_status_of, status_of, GridStatus};
use super::grid_world_state::{GridWorldAction, GridWorldState};
use crate::text::{parse_i64, spec_parse_i64, spec_trim, trim};

verus! {

/// Why a grid-world map text was refused.
#[derive(Eq, PartialEq, Debug, Copy, Clone, Structural)]
pub enum GridWorldParseError {
    /// There is no first line holding the width.
    MissingWidth,
    /// The first line, trimmed, is not an integer.
    InvalidWidth,
    /// There is no second line holding the height.
    MissingHeight,
    /// The second line is not an integer.
    InvalidHeight,
    /// A map line holds a character that stands for no cell.
    UnexpectedCharacter(char),
}

/// The first character of `row` that stands for no cell.
pub open spec fn first_bad_in_row(row: Seq<char>) -> Option<char>
    decreases row.len(),
{
    if row.len() == 0 {
        None
    } else if spec_status_of(row[0]) is None {
        Some(row[0])
    } else {
        first_bad_in_row(row.drop_first())
    }
}

/// The first character of `rows`, row by row, that stands for no cell.
pub open spec fn first_bad_char(rows: Seq<Seq<char>>) -> Option<char>
    decreases rows.len(),
{
    if rows.len() == 0 {
        None
    } else if first_bad_in_row(rows[0]) is Some {
        first_bad_in_row(rows[0])
    } else {
        first_bad_char(rows.drop_first())
    }
}

/// The cells a map line stands for.
pub open spec fn spec_row_statuses(row: Seq<char>) -> Seq<GridStatus> {
    row.map_values(|c: char| spec_status_of(c).unwrap())
}

/// The last column below `n` of `row` that is a start cell.
pub open spec fn last_start_in_row(row: Seq<GridStatus>, n: int) -> Option<int>
    decreases n,
{
    if n <= 0 {
        None
    } else if row[n - 1] == GridStatus::Start {
        Some(n - 1)
    } else {
        last_start_in_row(row, n - 1)
    }
}

proof fn lemma_last_start_in_row_bounds(row: Seq<GridStatus>, n: int)
    ensures
        last_start_in_row(row, n) matches Some(x) ==> 0 <= x < n,
    decreases n,
{
    if n > 0 {
        lemma_last_start_in_row_bounds(row, n - 1);
    }
}

/// The last start cell, in reading order, among the first `m` rows, as
/// `(column, row)`.
pub open spec fn last_start(grids: Seq<Seq<GridStatus>>, m: int) -> Option<(int, int)>
    decreases m,
{
    if m <= 0 {
        None
    } else if last_start_in_row(grids[m - 1], grids[m - 1].len() as int) is Some {
        Some((last_start_in_row(grids[m - 1], grids[m - 1].len() as int)->Some_0, m - 1))
    } else {
        last_start(grids, m - 1)
    }
}

/// Where the agent starts: the last start cell in reading order, or the
/// origin when the map has none.
pub open spec fn spec_initial_state(grids: Seq<Seq<GridStatus>>) -> GridWorldState {
    match last_start(grids, grids.len() as int) {
        Some((x, y)) => GridWorldState { x: x as i64, y: y as i64 },
        None => GridWorldState { x: 0, y: 0 },
    }
}

/// A grid-world map as its text gives it: width, height, cells row by row
/// and the start cell.
#[derive(PartialEq, Debug, Clone)]
pub struct GridWorldMap {
    pub h: i64,
    pub w: i64,
    pub initial_state: GridWorldState,
    pub all_actions: [GridWorldAction; 4],
    pub grids: Vec<Vec<GridStatus>>,
}

/// The cells a map line stands for, or its first character that stands for
/// no cell.
fn parse_row(line: &str) -> (r: Result<Vec<GridStatus>, char>)
    ensures
        match first_bad_in_row(line@) {
            Some(c) => r == Err::<Vec<GridStatus>, char>(c),
            None => r matches Ok(row) && row@ == spec_row_statuses(line@),
        },
{
    let n = line.unicode_len();
    let mut row: Vec<GridStatus> = Vec::new();
    let mut i: usize = 0;
    assert(line@.skip(0) =~= line@);
    while i < n
        invariant
            n == line@.len(),
            i <= n,
            row@ == spec_row_statuses(line@.take(i as int)),
            first_bad_in_row(line@) == first_bad_in_row(line@.skip(i as int)),
        decreases n - i,
    {
        let c = line.get_char(i);
        assert(line@.skip(i as int)[0] == c);
        assert(line@.skip(i as int).drop_first() =~= line@.skip(i + 1));
        match status_of(c) {
            Some(s) => {
                row.push(s);
                assert(row@ =~= spec_row_statuses(line@.take(i + 1)));
            },
            None => {
                return Err(c);
            },
        }
        i = i + 1;
    }
    assert(line@.take(n as int) =~= line@);
    assert(line@.skip(n as int) =~= Seq::<char>::empty());
    Ok(row)
}

/// The last start cell of `row`, as a column index.
fn find_start_in_row(row: &Vec<GridStatus>) -> (r: Option<usize>)
    ensures
        match last_start_in_row(row@, row@.len() as int) {
            Some(x) => r == Some(x as usize),
            None => r is None,
        },
{
    let mut found: Option<usize> = None;
    for x in 0..row.len()
        invariant
            match last_start_in_row(row@, x as int) {
                Some(xx) => found == Some(xx as usize),
                None => found is None,
            },
    {
        if row[x] == GridStatus::Start {
            found = Some(x);
        }
    }
    found
}

impl GridWorldMap {
    /// Reads a map from its lines: the width, the height, then one line of
    /// cells per row.  The agent starts on the last start cell in reading
    /// order, or at the origin when there is none.
    pub fn from_lines(lines: &Vec<String>) -> (r: Result<GridWorldMap, GridWorldParseError>)
        ensures
            lines@.len() == 0 ==> r == Err::<GridWorldMap, GridWorldParseError>(
                GridWorldParseError::MissingWidth,
            ),
            lines@.len() >= 1 && spec_parse_i64(spec_trim(lines@[0]@)) is None ==> r == Err::<
                GridWorldMap,
                GridWorldParseError,
            >(GridWorldParseError::InvalidWidth),
            lines@.len() == 1 && spec_parse_i64(spec_trim(lines@[0]@)) is Some ==> r == Err::<
                GridWorldMap,
                GridWorldParseError,
            >(GridWorldParseError::MissingHeight),
            lines@.len() >= 2 && spec_parse_i64(spec_trim(lines@[0]@)) is Some && spec_parse_i64(
                lines@[1]@,
            ) is None ==> r == Err::<GridWorldMap, GridWorldParseError>(
                GridWorldParseError::InvalidHeight,
            ),
            lines@.len() >= 2 && spec_parse_i64(spec_trim(lines@[0]@)) is Some && spec_parse_i64(
                lines@[1]@,
            ) is Some ==> {
                let rows = lines@.skip(2).map_values(|l: String| l@);
                match first_bad_char(rows) {
                    Some(c) => r == Err::<GridWorldMap, GridWorldParseError>(
                        GridWorldParseError::UnexpectedCharacter(c),
                    ),
                    None => r matches Ok(m) && {
                        &&& Some(m.w) == spec_parse_i64(spec_trim(lines@[0]@))
                        &&& Some(m.h) == spec_parse_i64(lines@[1]@)
                        &&& m.grids@.len() == rows.len()
                        &&& forall|k: int|
                            0 <= k < rows.len() ==> #[trigger] m.grids@[k]@ == spec_row_statuses(
                                rows[k],
                            )
                        &&& m.initial_state == spec_initial_state(
                            m.grids@.map_values(|row: Vec<GridStatus>| row@),
                        )
                        &&& m.all_actions@ == seq![
                            GridWorldAction::AttemptUp,
                            GridWorldAction::AttemptRight,
                            GridWorldAction::AttemptDown,
                            GridWorldAction::AttemptLeft,
                        ]
                    },
                }
            },
    {
        if lines.len() == 0 {
            return Err(GridWorldParseError::MissingWidth);
        }
        let w = match parse_i64(trim(lines[0].as_str())) {
            Some(w) => w,
            None => {
                return Err(GridWorldParseError::InvalidWidth);
            },
        };
        if lines.len() == 1 {
            return Err(GridWorldParseError::MissingHeight);
        }
        let h = match parse_i64(lines[1].as_str()) {
            Some(h) => h,
            None => {
                return Err(GridWorldParseError::InvalidHeight);
            },
        };
        let ghost rows = lines@.skip(2).map_values(|l: String| l@);
        let mut grids: Vec<Vec<GridStatus>> = Vec::new();
        let mut k: usize = 2;
        assert(rows.skip(0) =~= rows);
        while k < lines.len()
            invariant
                2 <= k <= lines@.len(),
                spec_parse_i64(spec_trim(lines@[0]@)) == Some(w),
                spec_parse_i64(lines@[1]@) == Some(h),
                rows == lines@.skip(2).map_values(|l: String| l@),
                grids@.len() == k - 2,
                forall|kk: int| 0 <= kk < k - 2 ==> #[trigger] grids@[kk]@ == spec_row_statuses(rows[kk]),
                first_bad_char(rows) == first_bad_char(rows.skip(k - 2)),
            decreases lines@.len() - k,
        {
            assert(rows.skip(k - 2)[0] == lines@[k as int]@);
            assert(rows.skip(k - 2).drop_first() =~= rows.skip(k - 1));
            match parse_row(lines[k].as_str()) {
                Ok(row) => {
                    grids.push(row);
                },
                Err(c) => {
                    return Err(GridWorldParseError::UnexpectedCharacter(c));
                },
            }
            k = k + 1;
        }
        assert(rows.skip(rows.len() as int) =~= Seq::<Seq<char>>::empty());
        let ghost views = grids@.map_values(|row: Vec<GridStatus>| row@);
        let mut initial_state = GridWorldState::new(0, 0);
        let mut y: usize = 0;
        while y < grids.len()
            invariant
                y <= grids@.len(),
                views == grids@.map_values(|row: Vec<GridStatus>| row@),
                grids@.len() <= lines@.len(),
                lines@.len() <= usize::MAX,
                initial_state == match last_start(views, y as int) {
                    Some((x, yy)) => GridWorldState { x: x as i64, y: yy as i64 },
                    None => GridWorldState { x: 0, y: 0 },
                },
            decreases grids@.len() - y,
        {
            let found = find_start_in_row(&grids[y]);
            proof {
                let row = views[y as int];
                assert(row == grids@[y as int]@);
                assert(row.len() == grids@[y as int].len());
                lemma_last_start_in_row_bounds(row, row.len() as int);
            }
            match found {
                Some(x) => {
                    initial_state = GridWorldState::new(x as i64, y as i64);
                },
                None => {},
            }
            y = y + 1;
        }
        Ok(
            GridWorldMap {
                h: h,
                w: w,
                initial_state: initial_state,
                all_actions: [
                    GridWorldAction::AttemptUp,
                    GridWorldAction::AttemptRight,
                    GridWorldAction::AttemptDown,
                    GridWorldAction::AttemptLeft,
                ],
                grids: grids,
            },
        )
    }
}

} // verus!
