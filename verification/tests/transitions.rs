use tennis::{update_game, Game, GameResult, GameUpdate, Point};

fn generic_tennis_test(
    player_1: Point,
    player_2: Point,
    update: GameUpdate,
    player_1_after: Point,
    player_2_after: Point,
    game_result: GameResult,
) {
    let mut actual_game = Game { player_1, player_2, result: GameResult::OnGoing };
    update_game(&mut actual_game, &update);
    let expected_game =
        Game { player_1: player_1_after, player_2: player_2_after, result: game_result };
    assert_eq!(&actual_game, &expected_game);
}

fn generic_tennis_test_p1(
    scorer: Point,
    other: Point,
    scorer_after: Point,
    other_after: Point,
    is_win: bool,
) {
    generic_tennis_test(
        scorer,
        other,
        GameUpdate::P1Score,
        scorer_after,
        other_after,
        if is_win { GameResult::P1Win } else { GameResult::OnGoing },
    )
}

fn generic_tennis_test_p2(
    scorer: Point,
    other: Point,
    scorer_after: Point,
    other_after: Point,
    is_win: bool,
) {
    generic_tennis_test(
        other,
        scorer,
        GameUpdate::P2Score,
        other_after,
        scorer_after,
        if is_win { GameResult::P2Win } else { GameResult::OnGoing },
    )
}

#[test]
fn tennis_test_p1() {
    generic_tennis_test_p1(Point::P0, Point::P0, Point::P15, Point::P0, false);
    generic_tennis_test_p1(Point::P15, Point::P0, Point::P30, Point::P0, false);
    generic_tennis_test_p1(Point::P30, Point::P0, Point::P40, Point::P0, false);
    generic_tennis_test_p1(Point::P40, Point::P0, Point::P40, Point::P0, true);
    generic_tennis_test_p1(Point::P15, Point::P15, Point::P30, Point::P15, false);
    generic_tennis_test_p1(Point::P30, Point::P15, Point::P40, Point::P15, false);
    generic_tennis_test_p1(Point::P40, Point::P15, Point::P40, Point::P15, true);
    generic_tennis_test_p1(Point::P15, Point::P30, Point::P30, Point::P30, false);
    generic_tennis_test_p1(Point::P30, Point::P30, Point::P40, Point::P30, false);
    generic_tennis_test_p1(Point::P40, Point::P30, Point::P40, Point::P30, true);
    generic_tennis_test_p1(Point::P15, Point::P40, Point::P30, Point::P40, false);
    generic_tennis_test_p1(Point::P30, Point::P40, Point::P40, Point::P40, false);
    generic_tennis_test_p1(Point::P40, Point::P40, Point::PAdv, Point::P40, false);
    generic_tennis_test_p1(Point::P40, Point::P40, Point::PAdv, Point::P40, false);
    generic_tennis_test_p1(Point::P40, Point::PAdv, Point::P40, Point::P40, false);
}

#[test]
fn tennis_test_p2() {
    generic_tennis_test_p2(Point::P0, Point::P0, Point::P15, Point::P0, false);
    generic_tennis_test_p2(Point::P15, Point::P0, Point::P30, Point::P0, false);
    generic_tennis_test_p2(Point::P30, Point::P0, Point::P40, Point::P0, false);
    generic_tennis_test_p2(Point::P40, Point::P0, Point::P40, Point::P0, true);
    generic_tennis_test_p2(Point::P15, Point::P15, Point::P30, Point::P15, false);
    generic_tennis_test_p2(Point::P30, Point::P15, Point::P40, Point::P15, false);
    generic_tennis_test_p2(Point::P40, Point::P15, Point::P40, Point::P15, true);
    generic_tennis_test_p2(Point::P15, Point::P30, Point::P30, Point::P30, false);
    generic_tennis_test_p2(Point::P30, Point::P30, Point::P40, Point::P30, false);
    generic_tennis_test_p2(Point::P40, Point::P30, Point::P40, Point::P30, true);
    generic_tennis_test_p2(Point::P15, Point::P40, Point::P30, Point::P40, false);
    generic_tennis_test_p2(Point::P30, Point::P40, Point::P40, Point::P40, false);
    generic_tennis_test_p2(Point::P40, Point::P40, Point::PAdv, Point::P40, false);
    generic_tennis_test_p2(Point::P40, Point::P40, Point::PAdv, Point::P40, false);
    generic_tennis_test_p2(Point::P40, Point::PAdv, Point::P40, Point::P40, false);
}
