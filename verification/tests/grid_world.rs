use oamdp::domains::grid_world::{
    GridStatus, GridWorldAction, GridWorldMap, GridWorldParseError, GridWorldState,
};

fn lines(text: &[&str]) -> Vec<String> {
    text.iter().map(|l| l.to_string()).collect()
}

#[test]
fn grid_world_parses_a_map() {
    let map = GridWorldMap::from_lines(&lines(&[" 3 ", "2", "S.x", "@.G"])).unwrap();
    assert_eq!(map.w, 3);
    assert_eq!(map.h, 2);
    assert_eq!(
        map.grids,
        vec![
            vec![GridStatus::Start, GridStatus::Blank, GridStatus::Wall],
            vec![GridStatus::Watery, GridStatus::Blank, GridStatus::Goal]
        ]
    );
    assert_eq!(map.initial_state, GridWorldState::new(0, 0));
    assert_eq!(map.all_actions[1], GridWorldAction::AttemptRight);
}

#[test]
fn grid_world_start_is_last_start_cell() {
    let map = GridWorldMap::from_lines(&lines(&["3", "3", "S..", "..S", ".S."])).unwrap();
    assert_eq!(map.initial_state, GridWorldState::new(1, 2));
    let none = GridWorldMap::from_lines(&lines(&["2", "1", ".."])).unwrap();
    assert_eq!(none.initial_state, GridWorldState::new(0, 0));
}

#[test]
fn grid_world_errors() {
    assert_eq!(GridWorldMap::from_lines(&lines(&[])), Err(GridWorldParseError::MissingWidth));
    assert_eq!(GridWorldMap::from_lines(&lines(&["five"])), Err(GridWorldParseError::InvalidWidth));
    assert_eq!(GridWorldMap::from_lines(&lines(&["5"])), Err(GridWorldParseError::MissingHeight));
    // The height line is not trimmed.
    assert_eq!(GridWorldMap::from_lines(&lines(&["5", " 4"])), Err(GridWorldParseError::InvalidHeight));
    assert_eq!(
        GridWorldMap::from_lines(&lines(&["2", "2", "..", ".#", "?."])),
        Err(GridWorldParseError::UnexpectedCharacter('#'))
    );
    assert_eq!(
        GridWorldMap::from_lines(&lines(&["-2", "+2", ".."])).map(|m| (m.w, m.h)),
        Ok((-2, 2))
    );
    assert_eq!(
        GridWorldMap::from_lines(&lines(&["99999999999999999999", "1"])),
        Err(GridWorldParseError::InvalidWidth)
    );
}
