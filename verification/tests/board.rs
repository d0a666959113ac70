use tictactoe::board::Board;
use tictactoe::piece::Piece;
use tictactoe::point::Point;

fn board_from_rows(rows: [&str; 3]) -> Board {
    let mut board = Board::new();
    for (y, row) in rows.iter().enumerate() {
        for (x, mark) in row.chars().enumerate() {
            let point = Point::new(x as u8, y as u8);
            match mark {
                'X' => board.put(&point, Piece::X),
                'O' => board.put(&point, Piece::O),
                _ => {}
            }
        }
    }
    board
}

#[test]
fn point_new_keeps_coordinates() {
    let p = Point::new(2, 1);
    assert_eq!(p.x, 2);
    assert_eq!(p.y, 1);
    assert_eq!(p, Point { x: 2, y: 1 });
}

#[test]
fn index_is_column_plus_three_rows() {
    assert_eq!(Board::index_from_point(&Point::new(0, 0)), 0);
    assert_eq!(Board::index_from_point(&Point::new(2, 0)), 2);
    assert_eq!(Board::index_from_point(&Point::new(0, 1)), 3);
    assert_eq!(Board::index_from_point(&Point::new(2, 1)), 5);
    assert_eq!(Board::index_from_point(&Point::new(1, 2)), 7);
    assert_eq!(Board::index_from_point(&Point::new(2, 2)), 8);
}

#[test]
fn index_maps_the_nine_cells_one_to_one() {
    let mut seen = [false; 9];
    for y in 0..3u8 {
        for x in 0..3u8 {
            let index = Board::index_from_point(&Point::new(x, y));
            assert!(index < 9);
            assert!(!seen[index]);
            seen[index] = true;
        }
    }
    assert_eq!(seen, [true; 9]);
}

#[test]
fn new_board_is_empty() {
    let board = Board::new();
    for y in 0..3u8 {
        for x in 0..3u8 {
            assert_eq!(board.piece(&Point::new(x, y)), None);
        }
    }
}

#[test]
fn put_then_piece_reads_back_everywhere() {
    for piece in [Piece::X, Piece::O] {
        for y in 0..3u8 {
            for x in 0..3u8 {
                let mut board = Board::new();
                let at = Point::new(x, y);
                board.put(&at, piece);
                for v in 0..3u8 {
                    for u in 0..3u8 {
                        let other = Point::new(u, v);
                        let expected = if other == at { Some(piece) } else { None };
                        assert_eq!(board.piece(&other), expected);
                    }
                }
            }
        }
    }
}

#[test]
fn put_overwrites_an_occupied_cell() {
    let mut board = Board::new();
    let at = Point::new(1, 2);
    board.put(&at, Piece::X);
    board.put(&at, Piece::O);
    assert_eq!(board.piece(&at), Some(Piece::O));
}

#[test]
fn put_leaves_other_pieces_alone() {
    let mut board = Board::new();
    board.put(&Point::new(0, 0), Piece::X);
    board.put(&Point::new(2, 1), Piece::O);
    assert_eq!(board.piece(&Point::new(0, 0)), Some(Piece::X));
    assert_eq!(board.piece(&Point::new(2, 1)), Some(Piece::O));
    assert_eq!(board.piece(&Point::new(1, 0)), None);
    assert_eq!(board.piece(&Point::new(0, 1)), None);
}

#[test]
fn lines_table_lists_rows_columns_diagonals() {
    let lines = Board::lines();
    assert_eq!(lines.len(), 8);
    assert_eq!(lines[0], [Point::new(0, 0), Point::new(1, 0), Point::new(2, 0)]);
    assert_eq!(lines[1], [Point::new(0, 1), Point::new(1, 1), Point::new(2, 1)]);
    assert_eq!(lines[2], [Point::new(0, 2), Point::new(1, 2), Point::new(2, 2)]);
    assert_eq!(lines[3], [Point::new(0, 0), Point::new(0, 1), Point::new(0, 2)]);
    assert_eq!(lines[4], [Point::new(1, 0), Point::new(1, 1), Point::new(1, 2)]);
    assert_eq!(lines[5], [Point::new(2, 0), Point::new(2, 1), Point::new(2, 2)]);
    assert_eq!(lines[6], [Point::new(0, 0), Point::new(1, 1), Point::new(2, 2)]);
    assert_eq!(lines[7], [Point::new(2, 0), Point::new(1, 1), Point::new(0, 2)]);
}

#[test]
fn judge_line_needs_three_equal_pieces() {
    let board = board_from_rows(["XXX", "OO.", "XOX"]);
    let lines = Board::lines();
    assert_eq!(board.judge_line(&lines[0]), Some(Piece::X));
    assert_eq!(board.judge_line(&lines[1]), None);
    assert_eq!(board.judge_line(&lines[2]), None);
    assert_eq!(board.judge_line(&lines[5]), None);
    assert_eq!(Board::new().judge_line(&lines[0]), None);
}

#[test]
fn judge_line_rejects_a_line_with_one_gap() {
    let lines = Board::lines();
    assert_eq!(board_from_rows([".XX", "...", "..."]).judge_line(&lines[0]), None);
    assert_eq!(board_from_rows(["X.X", "...", "..."]).judge_line(&lines[0]), None);
    assert_eq!(board_from_rows(["XX.", "...", "..."]).judge_line(&lines[0]), None);
    assert_eq!(board_from_rows(["OXX", "...", "..."]).judge_line(&lines[0]), None);
    assert_eq!(board_from_rows(["XOX", "...", "..."]).judge_line(&lines[0]), None);
    assert_eq!(board_from_rows(["XXO", "...", "..."]).judge_line(&lines[0]), None);
}

#[test]
fn judge_empty_board_has_no_winner() {
    assert_eq!(Board::new().judge(), None);
}

#[test]
fn judge_gives_the_same_answer_every_time() {
    let won = board_from_rows(["X.O", "OX.", "..X"]);
    let open = board_from_rows(["X.O", "OX.", "..."]);
    for _ in 0..5 {
        assert_eq!(won.judge(), Some(Piece::X));
        assert_eq!(open.judge(), None);
    }
    assert_eq!(won, board_from_rows(["X.O", "OX.", "..X"]));
}

#[test]
fn judge_finds_each_of_the_eight_lines() {
    let lines = Board::lines();
    for piece in [Piece::X, Piece::O] {
        for line in lines.iter() {
            let mut board = Board::new();
            for point in line.iter() {
                board.put(point, piece);
            }
            assert_eq!(board.judge(), Some(piece));
        }
    }
}

#[test]
fn judge_sees_no_winner_in_two_of_three() {
    let lines = Board::lines();
    for line in lines.iter() {
        for skipped in 0..3 {
            let mut board = Board::new();
            for (i, point) in line.iter().enumerate() {
                if i != skipped {
                    board.put(point, Piece::O);
                }
            }
            assert_eq!(board.judge(), None);
        }
    }
}

#[test]
fn judge_sees_no_winner_in_a_mixed_line() {
    assert_eq!(board_from_rows(["XOX", "...", "..."]).judge(), None);
    assert_eq!(board_from_rows(["X..", "O..", "X.."]).judge(), None);
    assert_eq!(board_from_rows(["X..", ".O.", "..X"]).judge(), None);
    assert_eq!(board_from_rows(["..O", ".X.", "O.."]).judge(), None);
}

#[test]
fn judge_prefers_the_upper_of_two_rows() {
    assert_eq!(board_from_rows(["OOO", "XXX", "..."]).judge(), Some(Piece::O));
    assert_eq!(board_from_rows(["XXX", "...", "OOO"]).judge(), Some(Piece::X));
    assert_eq!(board_from_rows(["...", "XXX", "OOO"]).judge(), Some(Piece::X));
    assert_eq!(board_from_rows(["...", "OOO", "XXX"]).judge(), Some(Piece::O));
}

#[test]
fn judge_prefers_the_left_of_two_columns() {
    assert_eq!(board_from_rows(["OX.", "OX.", "OX."]).judge(), Some(Piece::O));
    assert_eq!(board_from_rows(["X.O", "X.O", "X.O"]).judge(), Some(Piece::X));
    assert_eq!(board_from_rows([".XO", ".XO", ".XO"]).judge(), Some(Piece::X));
}

#[test]
fn judge_full_board_without_line_has_no_winner() {
    let board = board_from_rows(["XOX", "OXO", "OXO"]);
    for y in 0..3u8 {
        for x in 0..3u8 {
            assert!(board.piece(&Point::new(x, y)).is_some());
        }
    }
    assert_eq!(board.judge(), None);
}

#[test]
fn judge_full_board_with_line_has_winner() {
    assert_eq!(board_from_rows(["XOX", "OXO", "OXX"]).judge(), Some(Piece::X));
    assert_eq!(board_from_rows(["XOX", "XOO", "OOX"]).judge(), Some(Piece::O));
}

#[test]
fn piece_other_swaps_the_players() {
    assert_eq!(Piece::X.other(), Piece::O);
    assert_eq!(Piece::O.other(), Piece::X);
    assert_eq!(Piece::X.other().other(), Piece::X);
}

#[test]
fn piece_label_is_its_letter() {
    assert_eq!(Piece::X.label(), "X");
    assert_eq!(Piece::O.label(), "O");
}
