use microbit_core::roulette::State;

#[test]
fn walk_starts_top_left() {
    assert_eq!(State::start(), State::Row1GoingRight { col: 1 });
}

#[test]
fn walk_turns_at_corners() {
    assert_eq!((State::Row1GoingRight { col: 5 }).next(), State::Col5GoingDown { row: 2 });
    assert_eq!((State::Col5GoingDown { row: 5 }).next(), State::Row5GoingLeft { col: 4 });
    assert_eq!((State::Row5GoingLeft { col: 1 }).next(), State::Col1GoingUp { row: 4 });
    assert_eq!((State::Col1GoingUp { row: 1 }).next(), State::Row1GoingRight { col: 2 });
}

#[test]
fn walk_moves_along_edges() {
    assert_eq!((State::Row1GoingRight { col: 2 }).next(), State::Row1GoingRight { col: 3 });
    assert_eq!((State::Col5GoingDown { row: 3 }).next(), State::Col5GoingDown { row: 4 });
    assert_eq!((State::Row5GoingLeft { col: 4 }).next(), State::Row5GoingLeft { col: 3 });
    assert_eq!((State::Col1GoingUp { row: 3 }).next(), State::Col1GoingUp { row: 2 });
}

#[test]
fn walk_cycles_around_the_border() {
    // The border has sixteen cells; after sixteen steps the walk is back at
    // its start, having lit each border cell once and no inner cell.
    let mut state = State::start();
    let mut image = [[0u8; 5]; 5];
    let mut lit = Vec::new();
    for _ in 0..16 {
        state.set(&mut image);
        let mut cell = None;
        for i in 0..5 {
            for j in 0..5 {
                if image[i][j] == 1 {
                    assert!(cell.is_none(), "more than one cell lit");
                    cell = Some((i, j));
                }
            }
        }
        lit.push(cell.expect("no cell lit"));
        state.reset(&mut image);
        state = state.next();
    }
    // Sixteen steps from the start land on the last left-column cell, whose
    // successor re-enters the top row; the cycle then repeats.
    assert_eq!(state, State::Col1GoingUp { row: 1 });
    assert_eq!(state.next(), State::Row1GoingRight { col: 2 });
    lit.sort();
    lit.dedup();
    assert_eq!(lit.len(), 16);
    assert!(lit.iter().all(|&(i, j)| i == 0 || i == 4 || j == 0 || j == 4));
}

#[test]
fn set_and_reset_touch_one_cell() {
    let mut image = [[0u8; 5]; 5];
    let s = State::Col5GoingDown { row: 3 };
    s.set(&mut image);
    assert_eq!(image[2][4], 1);
    let total: u32 = image.iter().flatten().map(|&v| v as u32).sum();
    assert_eq!(total, 1);
    s.reset(&mut image);
    assert_eq!(image, [[0u8; 5]; 5]);
}

#[test]
fn out_of_range_state_clears_image() {
    let mut image = [[1u8; 5]; 5];
    let s = State::Row1GoingRight { col: 9 };
    s.set(&mut image);
    assert_eq!(image, [[0u8; 5]; 5]);
}
