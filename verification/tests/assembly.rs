//! Hands beyond the standard cases: the circumstances of a win, seven
//! pairs, the order of the checks, and the hand-scoring mode.

use mahc::calc::get_hand_score;
use mahc::parse_hand;
use mahc::Args;
use mahc::Fu;
use mahc::GroupType;
use mahc::Hand;
use mahc::HandErr;
use mahc::WinConditions;

fn texts(groups: &[&str]) -> Vec<String> {
    groups.iter().map(|g| g.to_string()).collect()
}

fn hand(groups: &[&str], win: &str, seat: &str, prev: &str) -> Result<Hand, HandErr> {
    Hand::new(texts(groups), win.to_string(), seat.to_string(), prev.to_string())
}

fn hand_with(groups: &[&str], conditions: WinConditions) -> Result<Hand, HandErr> {
    Hand::with_conditions(&texts(groups), "7m", "Ew", "Sw", conditions)
}

const WITH_KAN: [&str; 5] = ["rrrrd", "234m", "22s", "234m", "678m"];

const WITHOUT_KAN: [&str; 5] = ["rrrd", "234m", "22s", "234m", "678m"];

const SEVEN_PAIRS: [&str; 7] = ["11m", "22m", "33p", "44p", "55s", "66s", "EEw"];

#[test]
fn no_tiles_and_no_winning_tile() {
    assert_eq!(hand(&[], "7m", "Ew", "Sw").unwrap_err(), HandErr::NoHandTiles);
    assert_eq!(hand(&WITH_KAN, "", "Ew", "Sw").unwrap_err(), HandErr::NoWinTile);
    assert_eq!(hand(&[], "", "Ew", "Sw").unwrap_err(), HandErr::NoHandTiles);
}

#[test]
fn checks_come_in_order() {
    assert_eq!(hand(&["135m"], "", "Ew", "Sw").unwrap_err(), HandErr::NoWinTile);
    assert_eq!(hand(&["135m"], "7x", "Ew", "Sw").unwrap_err(), HandErr::InvalidGroup);
    assert_eq!(hand(&["rrrd"], "7x", "Ew", "Sw").unwrap_err(), HandErr::InvalidShape);
    assert_eq!(hand(&WITH_KAN, "7x", "Ew", "Sw").unwrap_err(), HandErr::InvalidSuit);
    let conflicting = WinConditions { riichi: true, double_riichi: true, ..WinConditions::none() };
    assert_eq!(
        Hand::with_conditions(&texts(&["rrrd"]), "7m", "Ew", "Sw", conflicting).unwrap_err(),
        HandErr::InvalidShape
    );
    assert_eq!(
        Hand::with_conditions(&texts(&WITH_KAN), "77m", "Ew", "Sw", conflicting).unwrap_err(),
        HandErr::InvalidGroup
    );
}

#[test]
fn first_failing_group_decides() {
    assert_eq!(
        hand(&["rrrd", "hhho", "135m", "22s", "678m"], "7m", "Ew", "Sw").unwrap_err(),
        HandErr::InvalidSuit
    );
    assert_eq!(
        hand(&["rrrd", "135m", "hhho", "22s", "678m"], "7m", "Ew", "Sw").unwrap_err(),
        HandErr::InvalidGroup
    );
    assert_eq!(
        hand(&["rrrd", "2m", "hhho", "22s", "678m"], "7m", "Ew", "Sw").unwrap_err(),
        HandErr::InvalidGroup
    );
}

#[test]
fn group_counts_that_make_no_hand() {
    let six_triplets_one_pair = ["SSSw", "SSSw", "SSSw", "SSSw", "SSSw", "SSw", "SSSw"];
    assert_eq!(hand(&six_triplets_one_pair, "3s", "Ew", "Sw").unwrap_err(), HandErr::InvalidShape);
    for n in [1, 2, 3, 4, 6, 8, 9] {
        let pairs = vec!["22s"; n];
        assert_eq!(hand(&pairs, "2s", "Ew", "Sw").unwrap_err(), HandErr::InvalidShape);
        let triplets = vec!["222s"; n];
        assert_eq!(hand(&triplets, "2s", "Ew", "Sw").unwrap_err(), HandErr::InvalidShape);
    }
}

#[test]
fn five_groups_need_exactly_one_pair() {
    assert_eq!(
        hand(&["rrrd", "234m", "222s", "234m", "678m"], "7m", "Ew", "Sw").unwrap_err(),
        HandErr::InvalidShape
    );
    assert_eq!(
        hand(&["rrd", "234m", "22s", "234m", "678m"], "7m", "Ew", "Sw").unwrap_err(),
        HandErr::InvalidShape
    );
    assert_eq!(
        hand(&["22s", "22s", "22s", "22s", "22s"], "2s", "Ew", "Sw").unwrap_err(),
        HandErr::InvalidShape
    );
    assert!(hand(&WITH_KAN, "7m", "Ew", "Sw").is_ok());
}

#[test]
fn winning_tile_is_one_tile() {
    assert_eq!(hand(&WITH_KAN, "77m", "Ew", "Sw").unwrap_err(), HandErr::InvalidGroup);
    assert_eq!(hand(&WITH_KAN, "678m", "Ew", "Sw").unwrap_err(), HandErr::InvalidGroup);
    assert_eq!(hand(&WITH_KAN, "hm", "Ew", "Sw").unwrap_err(), HandErr::InvalidGroup);
    assert_eq!(hand(&WITH_KAN, "7", "Ew", "Sw").unwrap_err(), HandErr::InvalidSuit);
    assert_eq!(hand(&WITH_KAN, "7h", "Ew", "Sw").unwrap_err(), HandErr::InvalidSuit);
    let ok = hand(&WITH_KAN, "7mo", "Ew", "Sw").unwrap();
    assert_eq!(ok.win_tile().group_type, GroupType::Single);
    assert_eq!(ok.win_tile().value, "7");
    assert_eq!(ok.win_tile().isopen, true);
}

#[test]
fn winds_are_kept_as_given() {
    let h = hand(&WITH_KAN, "7m", "es", "").unwrap();
    assert_eq!(h.seat_wind(), "es");
    assert_eq!(h.prevalent_wind(), "");
    assert_eq!(h.conditions(), WinConditions::none());
    assert_eq!(h.groups().len(), 5);
    assert_eq!(h.groups()[0].value, "r");
    assert_eq!(h.groups()[4].value, "6");
}

#[test]
fn riichi_and_double_riichi() {
    let c = WinConditions { riichi: true, double_riichi: true, ..WinConditions::none() };
    assert_eq!(hand_with(&WITH_KAN, c).unwrap_err(), HandErr::DuplicateRiichi);
    assert_eq!(c.check(true), Err(HandErr::DuplicateRiichi));
}

#[test]
fn ippatsu_without_riichi() {
    let c = WinConditions { ippatsu: true, ..WinConditions::none() };
    assert_eq!(hand_with(&WITH_KAN, c).unwrap_err(), HandErr::IppatsuWithoutRiichi);
    let c = WinConditions { ippatsu: true, riichi: true, ..WinConditions::none() };
    assert!(hand_with(&WITH_KAN, c).is_ok());
    let c = WinConditions { ippatsu: true, double_riichi: true, ..WinConditions::none() };
    assert!(hand_with(&WITH_KAN, c).is_ok());
}

#[test]
fn chankan_on_a_self_draw() {
    let c = WinConditions { chankan: true, tsumo: true, ..WinConditions::none() };
    assert_eq!(hand_with(&WITH_KAN, c).unwrap_err(), HandErr::ChankanTsumo);
    let c = WinConditions { chankan: true, ..WinConditions::none() };
    assert!(hand_with(&WITH_KAN, c).is_ok());
}

#[test]
fn rinshan_needs_a_kan_and_a_self_draw() {
    let c = WinConditions { rinshan: true, tsumo: true, ..WinConditions::none() };
    assert_eq!(hand_with(&WITHOUT_KAN, c).unwrap_err(), HandErr::RinshanKanWithoutKan);
    assert!(hand_with(&WITH_KAN, c).is_ok());
    let c = WinConditions { rinshan: true, ..WinConditions::none() };
    assert_eq!(hand_with(&WITH_KAN, c).unwrap_err(), HandErr::RinshanWithoutTsumo);
    assert_eq!(hand_with(&WITHOUT_KAN, c).unwrap_err(), HandErr::RinshanKanWithoutKan);
    let c = WinConditions {
        rinshan: true,
        tsumo: true,
        riichi: true,
        ippatsu: true,
        ..WinConditions::none()
    };
    assert_eq!(hand_with(&WITH_KAN, c).unwrap_err(), HandErr::RinshanIppatsu);
}

#[test]
fn double_riichi_with_haitei() {
    let c = WinConditions {
        double_riichi: true,
        haitei: true,
        ippatsu: true,
        ..WinConditions::none()
    };
    assert_eq!(hand_with(&WITH_KAN, c).unwrap_err(), HandErr::DoubleRiichiHaiteiIppatsu);
    let c = WinConditions {
        double_riichi: true,
        haitei: true,
        chankan: true,
        ..WinConditions::none()
    };
    assert_eq!(hand_with(&WITH_KAN, c).unwrap_err(), HandErr::DoubleRiichiHaiteiChankan);
    let c = WinConditions { double_riichi: true, haitei: true, ..WinConditions::none() };
    assert_eq!(hand_with(&WITH_KAN, c).unwrap().conditions(), c);
}

#[test]
fn conditions_without_conflict() {
    assert_eq!(WinConditions::none().check(false), Ok(()));
    let c = WinConditions { tsumo: true, riichi: true, ippatsu: true, ..WinConditions::none() };
    assert_eq!(c.check(false), Ok(()));
    assert_eq!(hand_with(&WITHOUT_KAN, c).unwrap().conditions(), c);
}

#[test]
fn groups_by_shape_keep_their_order() {
    let h = hand(&["444mo", "789p", "555so", "rrrrd", "11s"], "1s", "Ew", "Ew").unwrap();
    let triplets = h.triplets();
    assert_eq!(triplets.len(), 2);
    assert_eq!(triplets[0], h.groups()[0]);
    assert_eq!(triplets[1], h.groups()[2]);
    assert_eq!(h.sequences(), vec![h.groups()[1].clone()]);
    assert_eq!(h.kans(), vec![h.groups()[3].clone()]);
    assert_eq!(h.pairs(), vec![h.groups()[4].clone()]);
    assert_eq!(h.groups_with_shape(GroupType::Single), vec![]);
    assert!(h.is_open());
}

#[test]
fn seven_pairs_is_a_hand() {
    let h = hand(&SEVEN_PAIRS, "Ew", "Ew", "Sw").unwrap();
    assert_eq!(h.pairs().len(), 7);
    assert_eq!(h.triplets().len(), 0);
    assert_eq!(h.kans().len(), 0);
    assert_eq!(h.sequences().len(), 0);
    assert!(!h.is_open());
    assert_eq!(h.is_yakuhai(), 0);
    assert!(!h.is_tanyao());
    assert!(!h.is_iipeikou());
    assert!(!h.is_ryanpeikou());
}

#[test]
fn seven_pairs_fu() {
    let h = hand(&SEVEN_PAIRS, "Ew", "Ew", "Sw").unwrap();
    assert_eq!(
        h.calculate_fu(false),
        (40, vec![Fu::BasePointsChitoi, Fu::ClosedRon, Fu::Toitsu, Fu::SingleWait])
    );
    assert_eq!(
        h.calculate_fu(true),
        (40, vec![Fu::BasePointsChitoi, Fu::Tsumo, Fu::Toitsu, Fu::SingleWait])
    );
    let plain = hand(&["22m", "33m", "44p", "55p", "66s", "77s", "88s"], "8s", "Ew", "Sw").unwrap();
    assert_eq!(
        plain.calculate_fu(true),
        (30, vec![Fu::BasePointsChitoi, Fu::Tsumo, Fu::SingleWait])
    );
    let values = hand(&["EEw", "SSw", "rrd", "ggd", "wwd", "11m", "99m"], "9m", "Ew", "Sw").unwrap();
    assert_eq!(
        values.calculate_fu(true).1,
        vec![
            Fu::BasePointsChitoi,
            Fu::Tsumo,
            Fu::Toitsu,
            Fu::Toitsu,
            Fu::Toitsu,
            Fu::Toitsu,
            Fu::Toitsu,
            Fu::SingleWait
        ]
    );
    assert_eq!(values.calculate_fu(true).0, 40);
}

#[test]
fn fu_total_is_a_multiple_of_ten_from_twenty_up() {
    let hands: [&[&str]; 5] = [
        &WITH_KAN,
        &WITHOUT_KAN,
        &SEVEN_PAIRS,
        &["234mo", "567p", "22s", "345s", "678m"],
        &["1111m", "9999p", "EEEEw", "rrrrd", "NNw"],
    ];
    for groups in hands {
        let h = hand(groups, "7m", "Ew", "Sw").unwrap();
        for tsumo in [false, true] {
            let (total, items) = h.calculate_fu(tsumo);
            assert_eq!(total % 10, 0);
            assert!(total >= 20);
            if groups.len() == 7 {
                assert!(total >= 25);
            }
            assert_eq!(total, mahc::calculate_total_fu_value(&items));
        }
    }
}

#[test]
fn smallest_and_largest_fu() {
    let open = hand(&["234mo", "567p", "22s", "345s", "678m"], "6m", "Ew", "Sw").unwrap();
    assert_eq!(open.calculate_fu(false), (20, vec![Fu::BasePoints]));
    let kans = hand(&["1111m", "9999p", "EEEEw", "rrrrd", "NNw"], "Nw", "Nw", "Sw").unwrap();
    assert_eq!(
        kans.calculate_fu(true),
        (
            160,
            vec![
                Fu::BasePoints,
                Fu::Tsumo,
                Fu::NonSimpleClosedKan,
                Fu::NonSimpleClosedKan,
                Fu::NonSimpleClosedKan,
                Fu::NonSimpleClosedKan,
                Fu::Toitsu,
                Fu::SingleWait
            ]
        )
    );
}

#[test]
fn closed_ron_counts_only_on_a_closed_hand() {
    let closed = hand(&["234m", "567p", "22s", "345s", "678m"], "6m", "Ew", "Sw").unwrap();
    assert_eq!(closed.calculate_fu(false), (30, vec![Fu::BasePoints, Fu::ClosedRon]));
    assert_eq!(closed.calculate_fu(true), (30, vec![Fu::BasePoints, Fu::Tsumo]));
    let open = hand(&["234m", "567po", "22s", "345s", "678m"], "6m", "Ew", "Sw").unwrap();
    assert_eq!(open.calculate_fu(false), (20, vec![Fu::BasePoints]));
}

#[test]
fn triplets_and_kans_are_itemized_in_the_order_of_the_groups() {
    let h = hand(&["5555mo", "rrrd", "8888s", "22s", "333p"], "3p", "Ew", "Sw").unwrap();
    assert_eq!(
        h.calculate_fu(true).1,
        vec![
            Fu::BasePoints,
            Fu::Tsumo,
            Fu::SimpleOpenKan,
            Fu::NonSimpleClosedTriplet,
            Fu::SimpleClosedKan,
            Fu::SimpleClosedTriplet
        ]
    );
    assert_eq!(h.calculate_fu(true).0, 60);
}

#[test]
fn triplet_completed_by_ron_counts_as_open() {
    let h = hand(&["234m", "567p", "22s", "345s", "666m"], "6m", "Ew", "Sw").unwrap();
    assert_eq!(
        h.calculate_fu(false),
        (40, vec![Fu::BasePoints, Fu::ClosedRon, Fu::SimpleOpenTriplet])
    );
    assert_eq!(h.calculate_fu(true), (30, vec![Fu::BasePoints, Fu::Tsumo, Fu::SimpleClosedTriplet]));
    let kan = hand(&["234m", "567p", "22s", "345s", "6666m"], "6m", "Ew", "Sw").unwrap();
    assert_eq!(
        kan.calculate_fu(false),
        (50, vec![Fu::BasePoints, Fu::ClosedRon, Fu::SimpleClosedKan])
    );
}

#[test]
fn closed_triplet_stays_closed_when_another_tile_wins() {
    let groups = ["EEEEwo", "234m", "22s", "234m", "rrrd"];
    let h = hand(&groups, "7m", "Es", "Ww").unwrap();
    assert_eq!(h.is_yakuhai(), 2);
    assert_eq!(
        h.calculate_fu(false),
        (50, vec![Fu::BasePoints, Fu::NonSimpleOpenKan, Fu::NonSimpleClosedTriplet])
    );
    let other_rank = hand(&["234m", "567p", "22s", "345s", "666m"], "5m", "Ew", "Sw").unwrap();
    assert_eq!(
        other_rank.calculate_fu(false),
        (40, vec![Fu::BasePoints, Fu::ClosedRon, Fu::SimpleClosedTriplet])
    );
    let other_suit = hand(&["234m", "567p", "22s", "345s", "666m"], "6p", "Ew", "Sw").unwrap();
    assert_eq!(
        other_suit.calculate_fu(false),
        (40, vec![Fu::BasePoints, Fu::ClosedRon, Fu::SimpleClosedTriplet])
    );
    let not_last = hand(&["666m", "567p", "22s", "345s", "234m"], "6m", "Ew", "Sw").unwrap();
    assert_eq!(
        not_last.calculate_fu(false),
        (40, vec![Fu::BasePoints, Fu::ClosedRon, Fu::SimpleClosedTriplet])
    );
}

#[test]
fn hand_mode_with_a_closed_triplet_last() {
    let groups = ["EEEEwo", "234m", "22s", "234m", "rrrd"];
    let args = Args { dora: Some(0), ..hand_args(Some(&groups), Some("7m")) };
    assert_eq!(
        parse_hand(&args),
        Ok("Dealer: 4800 (1600)\nnon-dealer: 3200 (800/1600)".to_string())
    );
}

#[test]
fn waits_need_the_winning_tile_in_the_last_group() {
    let on_pair = |last: &str, win: &str| {
        hand(&["234mo", "567p", "345s", "666m", last], win, "Ew", "Sw").unwrap().is_single_wait()
    };
    assert!(on_pair("22s", "2s"));
    assert!(!on_pair("22s", "3s"));
    assert!(!on_pair("22s", "2m"));
    assert!(!on_pair("22s", "7m"));
    assert!(on_pair("EEw", "Ew"));
    assert!(!on_pair("EEw", "Sw"));
    let on = |last: &str, win: &str| {
        hand(&["234mo", "567p", "22s", "666m", last], win, "Ew", "Sw").unwrap().is_single_wait()
    };
    assert!(on("456m", "5m"));
    assert!(!on("456m", "5s"));
    assert!(!on("456m", "5p"));
    assert!(on("123p", "3p"));
    assert!(!on("123p", "3m"));
    assert!(on("789s", "7s"));
    assert!(!on("789s", "7p"));
    let seven = hand(&SEVEN_PAIRS, "7m", "Ew", "Sw").unwrap();
    assert_eq!(seven.calculate_fu(true), (30, vec![Fu::BasePointsChitoi, Fu::Tsumo, Fu::Toitsu]));
}

#[test]
fn waits() {
    let on = |last: &str, win: &str| {
        hand(&["234mo", "567p", "22s", "345s", last], win, "Ew", "Sw").unwrap().is_single_wait()
    };
    assert!(on("123m", "2m"));
    assert!(on("123m", "3m"));
    assert!(!on("123m", "1m"));
    assert!(on("789m", "8m"));
    assert!(on("789m", "7m"));
    assert!(!on("789m", "9m"));
    assert!(on("456m", "5m"));
    assert!(!on("456m", "4m"));
    assert!(!on("456m", "6m"));
    assert!(!on("456m", "Ew"));
    assert!(!on("666m", "6m"));
    assert!(!on("6666m", "6m"));
    let pair = hand(&["234mo", "567p", "345s", "666m", "22s"], "2s", "Ew", "Sw").unwrap();
    assert!(pair.is_single_wait());
}

#[test]
fn value_pair() {
    let fu = |pair: &str, seat: &str, prev: &str| {
        hand(&["234mo", "567p", pair, "345s", "678m"], "6m", seat, prev).unwrap().calculate_fu(false).1
    };
    assert_eq!(fu("EEw", "Ew", "Sw"), vec![Fu::BasePoints, Fu::Toitsu]);
    assert_eq!(fu("SSw", "Ew", "Sw"), vec![Fu::BasePoints, Fu::Toitsu]);
    assert_eq!(fu("EEw", "Ew", "Ew"), vec![Fu::BasePoints, Fu::Toitsu]);
    assert_eq!(fu("WWw", "Ew", "Sw"), vec![Fu::BasePoints]);
    assert_eq!(fu("rrd", "Ew", "Sw"), vec![Fu::BasePoints, Fu::Toitsu]);
    assert_eq!(fu("ggd", "Ew", "Sw"), vec![Fu::BasePoints, Fu::Toitsu]);
    assert_eq!(fu("wwd", "Ew", "Sw"), vec![Fu::BasePoints, Fu::Toitsu]);
    assert_eq!(fu("11m", "Ew", "Sw"), vec![Fu::BasePoints]);
    assert_eq!(fu("EEw", "", ""), vec![Fu::BasePoints]);
}

#[test]
fn yakuhai_counts() {
    let count = |groups: &[&str], seat: &str, prev: &str| {
        hand(groups, "7m", seat, prev).unwrap().is_yakuhai()
    };
    assert_eq!(count(&["rrrd", "EEEw", "22s", "234m", "678m"], "Ew", "Sw"), 2);
    assert_eq!(count(&["222p", "555s", "22s", "234m", "678m"], "Ew", "Sw"), 0);
    assert_eq!(count(&["EEEw", "555s", "22s", "234m", "678m"], "Ew", "Ew"), 2);
    assert_eq!(count(&["EEEEwo", "SSSw", "22s", "gggd", "wwwwd"], "Ew", "Ew"), 4);
    assert_eq!(count(&["EEEw", "SSSw", "WWWw", "NNNw", "22s"], "Ew", "Sw"), 2);
    assert_eq!(count(&["EEEw", "SSSw", "WWWw", "NNNw", "22s"], "", ""), 0);
    assert_eq!(count(&["rrd", "234p", "222s", "234m", "678m"], "Ew", "Sw"), 0);
    assert_eq!(count(&["EEw", "234p", "222s", "234m", "678m"], "Ew", "Ew"), 0);
}

#[test]
fn value_ranks() {
    let h = hand(&WITH_KAN, "7m", "Ew", "Sw").unwrap();
    for rank in ['E', 'S', 'r', 'g', 'w'] {
        assert!(h.is_value_rank(rank));
    }
    for rank in ['W', 'N', '1', '9', 'e', 'm'] {
        assert!(!h.is_value_rank(rank));
    }
}

#[test]
fn tanyao_needs_simples_only() {
    let tanyao = |groups: &[&str]| hand(groups, "7m", "Ew", "Sw").unwrap().is_tanyao();
    assert!(tanyao(&["234mo", "567p", "22s", "345s", "678m"]));
    assert!(tanyao(&["22m", "33m", "44p", "55p", "66s", "77s", "88s"]));
    assert!(!tanyao(&["123m", "567p", "22s", "345s", "678m"]));
    assert!(!tanyao(&["234m", "567p", "22s", "345s", "789m"]));
    assert!(!tanyao(&["234m", "567p", "99s", "345s", "678m"]));
    assert!(!tanyao(&["234m", "567p", "22s", "345s", "EEEw"]));
    assert!(!tanyao(&["234m", "567p", "22s", "345s", "WWWm"]));
}

#[test]
fn iipeikou_needs_a_closed_hand() {
    let iipeikou = |groups: &[&str]| hand(groups, "7m", "Ew", "Sw").unwrap().is_iipeikou();
    assert!(iipeikou(&["234m", "234m", "22s", "555p", "678m"]));
    assert!(iipeikou(&["234m", "555p", "22s", "678m", "234m"]));
    assert!(iipeikou(&["234m", "234m", "234m", "22s", "678m"]));
    assert!(!iipeikou(&["234m", "234mo", "22s", "555p", "678m"]));
    assert!(!iipeikou(&["234m", "234m", "22s", "555po", "678m"]));
    assert!(!iipeikou(&["234m", "234p", "22s", "555p", "678m"]));
    assert!(!iipeikou(&["234m", "345m", "22s", "555p", "678m"]));
    assert!(!iipeikou(&["222m", "222m", "22s", "555p", "678m"]));
}

#[test]
fn ryanpeikou_needs_two_twin_pairs() {
    let ryanpeikou = |groups: &[&str]| hand(groups, "7m", "Ew", "Sw").unwrap().is_ryanpeikou();
    assert!(ryanpeikou(&["123s", "123s", "789m", "789m", "77m"]));
    assert!(ryanpeikou(&["123s", "789m", "77m", "123s", "789m"]));
    assert!(ryanpeikou(&["123s", "789m", "789m", "123s", "77m"]));
    assert!(ryanpeikou(&["123s", "123s", "123s", "123s", "77m"]));
    assert!(!ryanpeikou(&["123s", "123s", "123s", "789m", "77m"]));
    assert!(!ryanpeikou(&["123s", "123s", "789m", "789mo", "77m"]));
    assert!(!ryanpeikou(&["123s", "123s", "789m", "789p", "77m"]));
    assert!(!ryanpeikou(&["123s", "123s", "777m", "777m", "77m"]));
}

#[test]
fn han_of_the_yaku() {
    let han = |groups: &[&str], riichi: bool| {
        let c = WinConditions { riichi, ..WinConditions::none() };
        Hand::with_conditions(&texts(groups), "7m", "Ew", "Ew", c).unwrap().yaku_han()
    };
    assert_eq!(han(&["123m", "567p", "22s", "345s", "678m"], false), 0);
    assert_eq!(han(&["123m", "567p", "22s", "345s", "678m"], true), 1);
    assert_eq!(han(&["234m", "567p", "22s", "345s", "678m"], false), 1);
    assert_eq!(han(&["234m", "234m", "22s", "345s", "678m"], false), 2);
    assert_eq!(han(&["234m", "234m", "22s", "345s", "345s"], true), 5);
    assert_eq!(han(&["123s", "123s", "789m", "789m", "77m"], false), 3);
    assert_eq!(han(&["EEEw", "rrrd", "22s", "345s", "678mo"], true), 4);
}

fn scored(groups: &[&str], win: &str, dora: u16, tsumo: bool, riichi: bool, honba: u16) -> Result<Vec<u32>, HandErr> {
    get_hand_score(&texts(groups), win, dora, "Ew", "Sw", tsumo, riichi, honba)
}

#[test]
fn hand_without_yaku() {
    let groups = ["123m", "567p", "22s", "345s", "678m"];
    assert_eq!(scored(&groups, "7m", 0, false, false, 0), Err(HandErr::NoYaku));
    assert_eq!(scored(&groups, "7m", 5, true, false, 2), Err(HandErr::NoYaku));
    assert_eq!(scored(&groups, "7m", 0, false, true, 0), Ok(vec![2000, 700, 1300, 400, 700]));
}

#[test]
fn hand_score_adds_dora_and_honba() {
    let groups = ["123m", "567p", "22s", "345s", "678m"];
    assert_eq!(scored(&groups, "7m", 2, false, true, 0), Ok(vec![7700, 2600, 5200, 1300, 2600]));
    assert_eq!(scored(&groups, "7m", 2, false, true, 1), Ok(vec![8000, 2700, 5500, 1400, 2700]));
    assert_eq!(
        scored(&groups, "7m", u16::MAX, false, true, 0),
        Ok(vec![48000, 16000, 32000, 8000, 16000])
    );
}

#[test]
fn hand_score_of_twin_sequences() {
    let groups = ["123s", "123s", "789m", "789m", "77m"];
    assert_eq!(scored(&groups, "7m", 0, false, false, 0), Ok(vec![7700, 2600, 5200, 1300, 2600]));
}

#[test]
fn hand_score_surfaces_the_error_of_the_hand() {
    assert_eq!(scored(&[], "7m", 0, false, false, 0), Err(HandErr::NoHandTiles));
    assert_eq!(scored(&WITH_KAN, "", 0, false, false, 0), Err(HandErr::NoWinTile));
    assert_eq!(scored(&["135m"], "7m", 0, false, false, 0), Err(HandErr::InvalidGroup));
    assert_eq!(scored(&["hhho"], "7m", 0, false, false, 0), Err(HandErr::InvalidSuit));
    assert_eq!(scored(&["rrrd"], "7m", 0, false, false, 0), Err(HandErr::InvalidShape));
}

fn hand_args(groups: Option<&[&str]>, win: Option<&str>) -> Args {
    Args {
        tiles: groups.map(texts),
        win: win.map(|w| w.to_string()),
        dora: None,
        seat: "Es".to_string(),
        prev: "Ww".to_string(),
        tsumo: false,
        riichi: false,
        ba: 0,
        manual: None,
    }
}

#[test]
fn hand_mode_answers_in_text() {
    let groups = ["rrrdo", "234m", "22s", "234m", "678m"];
    let args = hand_args(Some(&groups), Some("7m"));
    assert_eq!(parse_hand(&args), Ok("Dealer: 1500 (500)\nnon-dealer: 1000 (300/500)".to_string()));
    let args = Args { dora: Some(1), ba: 2, tsumo: true, ..hand_args(Some(&groups), Some("7m")) };
    assert_eq!(
        parse_hand(&args),
        Ok("Dealer: 3500 (1200)\nnon-dealer: 2600 (700/1200)".to_string())
    );
}

#[test]
fn hand_mode_without_tiles_or_winning_tile() {
    let groups = ["rrrdo", "234m", "22s", "234m", "678m"];
    assert_eq!(parse_hand(&hand_args(None, Some("7m"))), Err(HandErr::NoHandTiles));
    assert_eq!(parse_hand(&hand_args(Some(&groups), None)), Err(HandErr::NoWinTile));
    assert_eq!(parse_hand(&hand_args(None, None)), Err(HandErr::NoHandTiles));
    assert_eq!(parse_hand(&hand_args(Some(&[]), Some("7m"))), Err(HandErr::NoHandTiles));
    assert_eq!(parse_hand(&hand_args(Some(&groups), Some(""))), Err(HandErr::NoWinTile));
}

#[test]
fn hand_mode_surfaces_errors() {
    let groups = ["123m", "567p", "22s", "345s", "678m"];
    assert_eq!(parse_hand(&hand_args(Some(&groups), Some("7m"))), Err(HandErr::NoYaku));
    let groups = ["135m", "567p", "22s", "345s", "678m"];
    assert_eq!(parse_hand(&hand_args(Some(&groups), Some("7m"))), Err(HandErr::InvalidGroup));
}
