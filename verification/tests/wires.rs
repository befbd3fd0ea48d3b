use ship_systems::moves::{parse_move, Direction, Move};
use ship_systems::wires::{
    distance, find_crossings_from_coordinates, get_best_score, get_coordinates_from_sequence,
    get_steps_to_coordinate, lies_on, trace_wire, Coordinate,
};

#[test]
fn test_get_all_coordinates() {
    let steps = vec![
        vec![
            "R98", "U47", "R26", "D63", "R33", "U87", "L62", "D20", "R33", "U53", "R51",
        ],
        vec![
            "U98", "R91", "D20", "R16", "D67", "R40", "U7", "R15", "U6", "R7",
        ],
    ];

    let central_point = Coordinate { x: 3000, y: 3000 };

    let line1 = get_coordinates_from_sequence(&steps[0], &central_point);
    let line2 = get_coordinates_from_sequence(&steps[1], &central_point);
    let crossings = find_crossings_from_coordinates(&line1, &line2);

    let best_score = get_best_score(&crossings, &central_point);

    let mut steps_counts: Vec<i32> = vec![];

    for crossing in crossings.iter() {
        if *crossing == central_point {
            continue;
        }
        let steps_line_1 = get_steps_to_coordinate(&line1, crossing).unwrap();
        let steps_line_2 = get_steps_to_coordinate(&line2, crossing).unwrap();
        steps_counts.push(steps_line_1 + steps_line_2);
        println!("Steps: {}", steps_line_1 + steps_line_2);
    }
    assert_eq!(410, *steps_counts.iter().min().unwrap());
    assert_eq!(135, best_score);
}

#[test]
fn test_get_all_coordinates2() {
    let steps = vec![
        vec!["R75", "D30", "R83", "U83", "L12", "D49", "R71", "U7", "L72"],
        vec!["U62", "R66", "U55", "R34", "D71", "R55", "D58", "R83"],
    ];

    let central_point = Coordinate { x: 3000, y: 3000 };

    let line1 = get_coordinates_from_sequence(&steps[0], &central_point);
    let line2 = get_coordinates_from_sequence(&steps[1], &central_point);
    let crossings = find_crossings_from_coordinates(&line1, &line2);
    let best_score = get_best_score(&crossings, &central_point);

    let mut steps_counts: Vec<i32> = vec![];

    for crossing in crossings.iter() {
        if *crossing == central_point {
            continue;
        }
        let steps_line_1 = get_steps_to_coordinate(&line1, crossing).unwrap();
        let steps_line_2 = get_steps_to_coordinate(&line2, crossing).unwrap();
        steps_counts.push(steps_line_1 + steps_line_2);
    }
    assert_eq!(610, *steps_counts.iter().min().unwrap());
    assert_eq!(159, best_score);
}

fn at(x: usize, y: usize) -> Coordinate {
    Coordinate { x, y }
}

#[test]
fn small_wires_cross_twice() {
    let start = at(100, 100);
    let line1 = get_coordinates_from_sequence(&["R8", "U5", "L5", "D3"], &start);
    let line2 = get_coordinates_from_sequence(&["U7", "R6", "D4", "L4"], &start);
    let crossings = find_crossings_from_coordinates(&line1, &line2);
    assert_eq!(crossings, vec![start, at(106, 95), at(103, 97)]);
    assert_eq!(get_best_score(&crossings, &start), 6);
    assert_eq!(get_steps_to_coordinate(&line1, &at(106, 95)), Ok(15));
    assert_eq!(get_steps_to_coordinate(&line2, &at(106, 95)), Ok(15));
    assert_eq!(get_steps_to_coordinate(&line1, &at(103, 97)), Ok(20));
    assert_eq!(get_steps_to_coordinate(&line2, &at(103, 97)), Ok(20));
}

#[test]
fn wire_visits_every_step_in_order() {
    let visited = get_coordinates_from_sequence(&["R2", "D1", "L3", "U2"], &at(5, 5));
    assert_eq!(
        visited,
        vec![
            at(5, 5),
            at(6, 5),
            at(7, 5),
            at(7, 6),
            at(6, 6),
            at(5, 6),
            at(4, 6),
            at(4, 5),
            at(4, 4),
        ]
    );
}

#[test]
fn wire_without_legs_is_its_start() {
    let none: [&str; 0] = [];
    assert_eq!(get_coordinates_from_sequence(&none, &at(3, 4)), vec![at(3, 4)]);
    assert_eq!(trace_wire(&none, &at(3, 4)), Some(vec![at(3, 4)]));
    assert_eq!(trace_wire(&["R0", "U0"], &at(3, 4)), Some(vec![at(3, 4)]));
}

#[test]
fn trace_wire_agrees_with_get_coordinates() {
    let legs = ["R8", "U5", "L5", "D3"];
    assert_eq!(
        trace_wire(&legs, &at(10, 10)),
        Some(get_coordinates_from_sequence(&legs, &at(10, 10)))
    );
}

#[test]
fn trace_wire_refuses_a_text_that_is_no_leg() {
    assert_eq!(trace_wire(&["R2", "X3"], &at(5, 5)), None);
    assert_eq!(trace_wire(&["R2", ""], &at(5, 5)), None);
    assert_eq!(trace_wire(&["R"], &at(5, 5)), None);
    assert_eq!(trace_wire(&["2"], &at(5, 5)), None);
    assert_eq!(trace_wire(&["R2x"], &at(5, 5)), None);
}

#[test]
fn trace_wire_refuses_a_wire_that_leaves_the_grid() {
    assert_eq!(trace_wire(&["L1"], &at(0, 5)), None);
    assert_eq!(trace_wire(&["U6"], &at(5, 5)), None);
    assert_eq!(trace_wire(&["U5"], &at(5, 5)).map(|v| v.len()), Some(6));
    assert_eq!(trace_wire(&["R1"], &at(usize::MAX, 0)), None);
    assert_eq!(trace_wire(&["D2"], &at(0, usize::MAX - 1)), None);
    assert_eq!(
        trace_wire(&["D1"], &at(0, usize::MAX - 1)),
        Some(vec![at(0, usize::MAX - 1), at(0, usize::MAX)])
    );
}

#[test]
fn parse_move_reads_letter_and_count() {
    assert_eq!(parse_move("R98"), Some(Move { direction: Direction::Right, steps: 98 }));
    assert_eq!(parse_move("L1"), Some(Move { direction: Direction::Left, steps: 1 }));
    assert_eq!(parse_move("U0"), Some(Move { direction: Direction::Up, steps: 0 }));
    assert_eq!(parse_move("D007"), Some(Move { direction: Direction::Down, steps: 7 }));
    assert_eq!(parse_move("R+5"), Some(Move { direction: Direction::Right, steps: 5 }));
    assert_eq!(
        parse_move(&format!("R{}", usize::MAX)),
        Some(Move { direction: Direction::Right, steps: usize::MAX })
    );
}

#[test]
fn parse_move_refuses_other_texts() {
    assert_eq!(parse_move(""), None);
    assert_eq!(parse_move("R"), None);
    assert_eq!(parse_move("R+"), None);
    assert_eq!(parse_move("R++5"), None);
    assert_eq!(parse_move("R-5"), None);
    assert_eq!(parse_move("R 5"), None);
    assert_eq!(parse_move("R5 "), None);
    assert_eq!(parse_move("r5"), None);
    assert_eq!(parse_move("X5"), None);
    assert_eq!(parse_move("55"), None);
    assert_eq!(parse_move("é5"), None);
    assert_eq!(parse_move("R99999999999999999999999999"), None);
    assert_eq!(parse_move(&format!("R{}0", usize::MAX)), None);
}

#[test]
fn crossings_keep_order_and_repeats_of_the_first_line() {
    let line1 = vec![at(1, 1), at(2, 2), at(1, 1), at(3, 3), at(4, 4)];
    let line2 = vec![at(4, 4), at(1, 1), at(9, 9)];
    assert_eq!(
        find_crossings_from_coordinates(&line1, &line2),
        vec![at(1, 1), at(1, 1), at(4, 4)]
    );
    assert_eq!(find_crossings_from_coordinates(&line2, &line1), vec![at(4, 4), at(1, 1)]);
    assert_eq!(find_crossings_from_coordinates(&line1, &[]), vec![]);
    assert_eq!(find_crossings_from_coordinates(&[], &line2), vec![]);
}

#[test]
fn lies_on_finds_points() {
    let line = vec![at(1, 2), at(3, 4)];
    assert!(lies_on(&line, &at(3, 4)));
    assert!(!lies_on(&line, &at(4, 3)));
    assert!(!lies_on(&[], &at(0, 0)));
}

#[test]
fn best_score_without_crossings_is_the_largest_number() {
    let start = at(10, 10);
    assert_eq!(get_best_score(&[], &start), i32::MAX);
    assert_eq!(get_best_score(&[start], &start), i32::MAX);
    assert_eq!(get_best_score(&[start, start], &start), i32::MAX);
}

#[test]
fn best_score_is_the_smallest_distance() {
    let start = at(10, 10);
    let crossings = vec![start, at(13, 14), at(9, 8), at(10, 20)];
    assert_eq!(get_best_score(&crossings, &start), 3);
    assert_eq!(get_best_score(&[at(0, 0)], &start), 20);
    assert_eq!(get_best_score(&[at(10, 11)], &start), 1);
}

#[test]
fn distance_stops_at_the_largest_number() {
    assert_eq!(distance(&at(0, 0), &at(0, 0)), 0);
    assert_eq!(distance(&at(1, 5), &at(4, 1)), 7);
    assert_eq!(distance(&at(4, 1), &at(1, 5)), 7);
    assert_eq!(distance(&at(0, 0), &at(0x7fff_fffe, 0)), 0x7fff_fffe);
    assert_eq!(distance(&at(0, 0), &at(0x7fff_ffff, 0)), i32::MAX);
    assert_eq!(distance(&at(0, 0), &at(0x7fff_fffe, 1)), i32::MAX);
    assert_eq!(distance(&at(0, 0), &at(usize::MAX, usize::MAX)), i32::MAX);
    assert_eq!(get_best_score(&[at(usize::MAX, 0)], &at(0, 0)), i32::MAX);
}

#[test]
fn steps_to_a_point_count_from_the_first_visit() {
    let line = vec![at(0, 0), at(1, 0), at(1, 1), at(1, 0), at(2, 0)];
    assert_eq!(get_steps_to_coordinate(&line, &at(0, 0)), Ok(0));
    assert_eq!(get_steps_to_coordinate(&line, &at(1, 0)), Ok(1));
    assert_eq!(get_steps_to_coordinate(&line, &at(2, 0)), Ok(4));
}

#[test]
fn steps_to_a_point_off_the_line_is_an_error() {
    let line = vec![at(0, 0), at(1, 0)];
    assert_eq!(get_steps_to_coordinate(&line, &at(0, 1)), Err("Not found on line"));
    assert_eq!(get_steps_to_coordinate(&[], &at(0, 0)), Err("Not found on line"));
}
