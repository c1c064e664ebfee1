//! A complete hand: its groups, the winning tile and the table context.
//!
//! The groups are kept in the order in which they were given. Nothing ties
//! the winning tile to one of them: the rules that ask which group the
//! winning tile completed read the last group, and hold of it only where
//! the winning tile is one of its tiles.
use crate::error::HandErr;
use crate::tile::parse_group;
use crate::tile::GroupType;
use crate::tile::GroupView;
use crate::tile::TileGroup;
use vstd::prelude::*;
use vstd::string::*;

verus! {

/// The circumstances of a win.
#[derive(Debug, Clone, Copy, PartialEq, Eq, Structural)]
pub struct WinConditions {
    /// The hand was won by self-draw.
    pub tsumo: bool,
    pub riichi: bool,
    pub double_riichi: bool,
    pub ippatsu: bool,
    pub haitei: bool,
    pub chankan: bool,
    pub rinshan: bool,
}

impl WinConditions {
    /// The combination that a set of circumstances breaks, if any. Where it
    /// breaks several, the first in this order is reported: riichi together
    /// with double riichi; ippatsu without either riichi; chankan on a
    /// self-draw; rinshan without a kan, without a self-draw, or with
    /// ippatsu; double riichi and haitei with ippatsu, or with chankan.
    pub open spec fn conflict(self, has_kan: bool) -> Option<HandErr> {
        if self.riichi && self.double_riichi {
            Some(HandErr::DuplicateRiichi)
        } else if self.ippatsu && !self.riichi && !self.double_riichi {
            Some(HandErr::IppatsuWithoutRiichi)
        } else if self.chankan && self.tsumo {
            Some(HandErr::ChankanTsumo)
        } else if self.rinshan && !has_kan {
            Some(HandErr::RinshanKanWithoutKan)
        } else if self.rinshan && !self.tsumo {
            Some(HandErr::RinshanWithoutTsumo)
        } else if self.rinshan && self.ippatsu {
            Some(HandErr::RinshanIppatsu)
        } else if self.double_riichi && self.haitei && self.ippatsu {
            Some(HandErr::DoubleRiichiHaiteiIppatsu)
        } else if self.double_riichi && self.haitei && self.chankan {
            Some(HandErr::DoubleRiichiHaiteiChankan)
        } else {
            None
        }
    }

    /// Whether the circumstances can hold together, in a hand with or
    /// without a kan: not both riichi; ippatsu only after a riichi; no
    /// chankan on a self-draw; rinshan only on a self-draw with a kan and
    /// without ippatsu; and after a double riichi no haitei together with
    /// ippatsu or chankan.
    pub open spec fn compatible(self, has_kan: bool) -> bool {
        &&& !(self.riichi && self.double_riichi)
        &&& self.ippatsu ==> self.riichi || self.double_riichi
        &&& !(self.chankan && self.tsumo)
        &&& self.rinshan ==> has_kan && self.tsumo && !self.ippatsu
        &&& !(self.double_riichi && self.haitei && (self.ippatsu || self.chankan))
    }

    /// Circumstances are free of conflict exactly when they can hold
    /// together.
    pub proof fn lemma_conflict_free(self, has_kan: bool)
        ensures
            self.conflict(has_kan) is None <==> self.compatible(has_kan),
    {
    }

    /// No special circumstance: a win by ron without riichi.
    pub open spec fn plain() -> WinConditions {
        WinConditions {
            tsumo: false,
            riichi: false,
            double_riichi: false,
            ippatsu: false,
            haitei: false,
            chankan: false,
            rinshan: false,
        }
    }

    /// The circumstances of a win by ron without riichi.
    pub fn none() -> (c: WinConditions)
        ensures
            c == Self::plain(),
    {
        WinConditions {
            tsumo: false,
            riichi: false,
            double_riichi: false,
            ippatsu: false,
            haitei: false,
            chankan: false,
            rinshan: false,
        }
    }

    /// Cross-check the circumstances against each other and against
    /// whether the hand holds a kan.
    pub fn check(&self, has_kan: bool) -> (r: Result<(), HandErr>)
        ensures
            match self.conflict(has_kan) {
                Some(e) => r == Err::<(), HandErr>(e),
                None => r is Ok,
            },
            r is Ok <==> self.compatible(has_kan),
    {
        if self.riichi && self.double_riichi {
            Err(HandErr::DuplicateRiichi)
        } else if self.ippatsu && !self.riichi && !self.double_riichi {
            Err(HandErr::IppatsuWithoutRiichi)
        } else if self.chankan && self.tsumo {
            Err(HandErr::ChankanTsumo)
        } else if self.rinshan && !has_kan {
            Err(HandErr::RinshanKanWithoutKan)
        } else if self.rinshan && !self.tsumo {
            Err(HandErr::RinshanWithoutTsumo)
        } else if self.rinshan && self.ippatsu {
            Err(HandErr::RinshanIppatsu)
        } else if self.double_riichi && self.haitei && self.ippatsu {
            Err(HandErr::DoubleRiichiHaiteiIppatsu)
        } else if self.double_riichi && self.haitei && self.chankan {
            Err(HandErr::DoubleRiichiHaiteiChankan)
        } else {
            Ok(())
        }
    }
}

/// The test for a shape.
pub open spec fn has_shape(shape: GroupType) -> spec_fn(GroupView) -> bool {
    |g: GroupView| g.shape == shape
}

/// The groups of a list that have the given shape, in the list's order.
pub open spec fn groups_of_shape(groups: Seq<GroupView>, shape: GroupType) -> Seq<GroupView> {
    groups.filter(has_shape(shape))
}

/// How many groups of a list have the given shape.
pub open spec fn shape_count(groups: Seq<GroupView>, shape: GroupType) -> nat {
    groups_of_shape(groups, shape).len()
}

/// The groups of a shape, one group at a time: an empty list has none, and
/// the last group of a list joins those before it when it has the shape.
pub proof fn lemma_groups_of_shape_step(groups: Seq<GroupView>, shape: GroupType)
    ensures
        groups.len() == 0 ==> groups_of_shape(groups, shape) == Seq::<GroupView>::empty(),
        groups.len() > 0 ==> groups_of_shape(groups, shape) == if groups.last().shape == shape {
            groups_of_shape(groups.drop_last(), shape).push(groups.last())
        } else {
            groups_of_shape(groups.drop_last(), shape)
        },
{
    reveal(Seq::filter);
}

/// The number of tiles that a shape holds.
pub open spec fn tiles_in(shape: GroupType) -> nat {
    match shape {
        GroupType::Kan => 4,
        GroupType::Triplet => 3,
        GroupType::Sequence => 3,
        GroupType::Pair => 2,
        GroupType::Single => 1,
    }
}

/// The number of tiles that a list of groups holds.
pub open spec fn tile_count(groups: Seq<GroupView>) -> nat
    decreases groups.len(),
{
    if groups.len() == 0 {
        0
    } else {
        tile_count(groups.drop_last()) + tiles_in(groups.last().shape)
    }
}

/// The standard shape: five groups, exactly one of them a pair.
pub open spec fn is_standard_shape(groups: Seq<GroupView>) -> bool {
    groups.len() == 5 && shape_count(groups, GroupType::Pair) == 1
}

/// The seven-pairs shape: seven groups, each of them a pair.
pub open spec fn is_seven_pairs(groups: Seq<GroupView>) -> bool {
    groups.len() == 7 && shape_count(groups, GroupType::Pair) == 7
}

/// What a hand is: the mathematical value behind [`Hand`].
pub struct HandView {
    pub groups: Seq<GroupView>,
    pub win_tile: GroupView,
    pub seat_wind: Seq<char>,
    pub prevalent_wind: Seq<char>,
    pub conditions: WinConditions,
}

impl HandView {
    /// Whether any group of the hand is a kan.
    pub open spec fn has_kan(self) -> bool {
        shape_count(self.groups, GroupType::Kan) > 0
    }

    /// Whether any group of the hand is open.
    pub open spec fn is_open(self) -> bool {
        exists|i: int| 0 <= i < self.groups.len() && (#[trigger] self.groups[i]).open
    }

    /// The invariant of a hand: every group meets the group invariant and
    /// none is a lone tile; the groups are of the standard or of the
    /// seven-pairs shape; the winning tile is one lone tile; and the
    /// circumstances of the win can hold together.
    pub open spec fn valid(self) -> bool {
        &&& forall|i: int|
            0 <= i < self.groups.len() ==> (#[trigger] self.groups[i]).valid()
                && self.groups[i].shape != GroupType::Single
        &&& is_standard_shape(self.groups) || is_seven_pairs(self.groups)
        &&& self.win_tile.valid()
        &&& self.win_tile.shape == GroupType::Single
        &&& self.conditions.compatible(self.has_kan())
    }
}

/// A group of a hand, from its notation: what the notation stands for,
/// unless that is a lone tile, which is no group of a hand.
pub open spec fn hand_group(s: Seq<char>) -> Result<GroupView, HandErr> {
    match parse_group(s) {
        Ok(g) => if g.shape == GroupType::Single {
            Err(HandErr::InvalidGroup)
        } else {
            Ok(g)
        },
        Err(e) => Err(e),
    }
}

/// The winning tile, from its notation: what the notation stands for,
/// which has to be one lone tile.
pub open spec fn winning_tile(s: Seq<char>) -> Result<GroupView, HandErr> {
    match parse_group(s) {
        Ok(g) => if g.shape == GroupType::Single {
            Ok(g)
        } else {
            Err(HandErr::InvalidGroup)
        },
        Err(e) => Err(e),
    }
}

/// The error of the first notation in the list that is no group of a hand.
pub open spec fn first_group_error(tiles: Seq<Seq<char>>) -> Option<HandErr>
    decreases tiles.len(),
{
    if tiles.len() == 0 {
        None
    } else {
        match first_group_error(tiles.drop_last()) {
            Some(e) => Some(e),
            None => match hand_group(tiles.last()) {
                Ok(_) => None,
                Err(e) => Some(e),
            },
        }
    }
}

/// The groups that a list of notations stands for.
pub open spec fn hand_groups(tiles: Seq<Seq<char>>) -> Seq<GroupView> {
    Seq::new(tiles.len(), |i: int| hand_group(tiles[i])->Ok_0)
}

/// The hand that the given notations and circumstances make, or the reason
/// they make none. The checks come in this order: that there are groups
/// and a winning tile at all; each group in turn; the shape of the hand;
/// the winning tile; the circumstances of the win.
pub open spec fn assemble(
    tiles: Seq<Seq<char>>,
    win: Seq<char>,
    seat: Seq<char>,
    prev: Seq<char>,
    conditions: WinConditions,
) -> Result<HandView, HandErr> {
    let groups = hand_groups(tiles);
    if tiles.len() == 0 {
        Err(HandErr::NoHandTiles)
    } else if win.len() == 0 {
        Err(HandErr::NoWinTile)
    } else if first_group_error(tiles) is Some {
        Err(first_group_error(tiles)->0)
    } else if !is_standard_shape(groups) && !is_seven_pairs(groups) {
        Err(HandErr::InvalidShape)
    } else if winning_tile(win) is Err {
        Err(winning_tile(win)->Err_0)
    } else if conditions.conflict(shape_count(groups, GroupType::Kan) > 0) is Some {
        Err(conditions.conflict(shape_count(groups, GroupType::Kan) > 0)->0)
    } else {
        Ok(
            HandView {
                groups,
                win_tile: winning_tile(win)->Ok_0,
                seat_wind: seat,
                prevalent_wind: prev,
                conditions,
            },
        )
    }
}

/// The views of a list of groups.
pub open spec fn group_views(groups: Seq<TileGroup>) -> Seq<GroupView> {
    Seq::new(groups.len(), |i: int| groups[i]@)
}

/// Every group of the list is well formed.
pub open spec fn all_wf(groups: Seq<TileGroup>) -> bool {
    forall|i: int| 0 <= i < groups.len() ==> (#[trigger] groups[i]).wf()
}

/// A list without failing notation stays so when its last entry leaves, and
/// each of its entries is a group of a hand.
pub proof fn lemma_no_group_error(tiles: Seq<Seq<char>>, i: int)
    requires
        first_group_error(tiles) is None,
        0 <= i < tiles.len(),
    ensures
        hand_group(tiles[i]) is Ok,
    decreases tiles.len(),
{
    if i < tiles.len() - 1 {
        lemma_no_group_error(tiles.drop_last(), i);
    }
}

/// A hand that was assembled meets the hand invariant.
pub proof fn lemma_assembled_valid(
    tiles: Seq<Seq<char>>,
    win: Seq<char>,
    seat: Seq<char>,
    prev: Seq<char>,
    conditions: WinConditions,
)
    requires
        assemble(tiles, win, seat, prev, conditions) is Ok,
    ensures
        assemble(tiles, win, seat, prev, conditions)->Ok_0.valid(),
{
    let h = assemble(tiles, win, seat, prev, conditions)->Ok_0;
    assert forall|i: int| 0 <= i < h.groups.len() implies (#[trigger] h.groups[i]).valid()
        && h.groups[i].shape != GroupType::Single by {
        lemma_no_group_error(tiles, i);
        crate::tile::lemma_parsed_group_valid(tiles[i]);
    }
    crate::tile::lemma_parsed_group_valid(win);
    conditions.lemma_conflict_free(h.has_kan());
}

/// Without lone tiles, a list of groups holds three tiles a group, one less
/// for each pair and one more for each kan.
pub proof fn lemma_tile_count(groups: Seq<GroupView>)
    requires
        forall|i: int| 0 <= i < groups.len() ==> (#[trigger] groups[i]).shape != GroupType::Single,
    ensures
        tile_count(groups) + shape_count(groups, GroupType::Pair) == 3 * groups.len()
            + shape_count(groups, GroupType::Kan),
        shape_count(groups, GroupType::Pair) + shape_count(groups, GroupType::Kan)
            <= groups.len(),
    decreases groups.len(),
{
    lemma_groups_of_shape_step(groups, GroupType::Pair);
    lemma_groups_of_shape_step(groups, GroupType::Kan);
    if groups.len() > 0 {
        lemma_tile_count(groups.drop_last());
    }
}

/// A valid hand holds fourteen tiles, and one more for each kan.
pub proof fn lemma_valid_hand_tile_count(h: HandView)
    requires
        h.valid(),
    ensures
        tile_count(h.groups) == 14 + shape_count(h.groups, GroupType::Kan),
{
    lemma_tile_count(h.groups);
}

/// No more groups have a shape than there are groups, and where all of
/// them are counted, each has the shape.
pub proof fn lemma_shape_count_all(groups: Seq<GroupView>, shape: GroupType)
    ensures
        shape_count(groups, shape) <= groups.len(),
        shape_count(groups, shape) == groups.len() ==> forall|i: int|
            0 <= i < groups.len() ==> (#[trigger] groups[i]).shape == shape,
    decreases groups.len(),
{
    lemma_groups_of_shape_step(groups, shape);
    if groups.len() > 0 {
        lemma_shape_count_all(groups.drop_last(), shape);
        if shape_count(groups, shape) == groups.len() {
            assert forall|i: int| 0 <= i < groups.len() implies (#[trigger] groups[i]).shape
                == shape by {
                if i < groups.len() - 1 {
                    assert(groups.drop_last()[i] == groups[i]);
                }
            }
        }
    }
}

/// No more groups have one of two shapes than there are groups, and where
/// all of them are counted, each has one of the two.
pub proof fn lemma_shape_count_two(groups: Seq<GroupView>, a: GroupType, b: GroupType)
    requires
        a != b,
    ensures
        shape_count(groups, a) + shape_count(groups, b) <= groups.len(),
        shape_count(groups, a) + shape_count(groups, b) == groups.len() ==> forall|i: int|
            0 <= i < groups.len() ==> (#[trigger] groups[i]).shape == a || groups[i].shape == b,
    decreases groups.len(),
{
    lemma_groups_of_shape_step(groups, a);
    lemma_groups_of_shape_step(groups, b);
    if groups.len() > 0 {
        lemma_shape_count_two(groups.drop_last(), a, b);
        if shape_count(groups, a) + shape_count(groups, b) == groups.len() {
            assert forall|i: int| 0 <= i < groups.len() implies (#[trigger] groups[i]).shape
                == a || groups[i].shape == b by {
                if i < groups.len() - 1 {
                    assert(groups.drop_last()[i] == groups[i]);
                }
            }
        }
    }
}

/// Groups that are not five, and not seven pairs either, make no hand:
/// where each of them is a group of a hand and a winning tile is given,
/// they are rejected for their shape.
pub proof fn lemma_wrong_count_is_invalid_shape(
    tiles: Seq<Seq<char>>,
    win: Seq<char>,
    seat: Seq<char>,
    prev: Seq<char>,
    conditions: WinConditions,
    other: int,
)
    requires
        tiles.len() > 0,
        win.len() > 0,
        first_group_error(tiles) is None,
        tiles.len() != 5,
        tiles.len() == 7 ==> 0 <= other < 7 && hand_groups(tiles)[other].shape
            != GroupType::Pair,
    ensures
        assemble(tiles, win, seat, prev, conditions) == Err::<HandView, HandErr>(
            HandErr::InvalidShape,
        ),
{
    lemma_shape_count_all(hand_groups(tiles), GroupType::Pair);
}

/// The error of the first failing notation is the error of the list.
pub proof fn lemma_first_group_error_at(tiles: Seq<Seq<char>>, i: int)
    requires
        0 <= i < tiles.len(),
        first_group_error(tiles.take(i)) is None,
        hand_group(tiles[i]) is Err,
    ensures
        first_group_error(tiles) == Some(hand_group(tiles[i])->Err_0),
    decreases tiles.len(),
{
    if tiles.len() == i + 1 {
        assert(tiles.drop_last() =~= tiles.take(i));
    } else {
        assert(tiles.drop_last().take(i) =~= tiles.take(i));
        lemma_first_group_error_at(tiles.drop_last(), i);
    }
}

/// A complete hand.
#[derive(Debug)]
pub struct Hand {
    groups: Vec<TileGroup>,
    win_tile: TileGroup,
    seat_wind: String,
    prevalent_wind: String,
    conditions: WinConditions,
}

impl View for Hand {
    type V = HandView;

    closed spec fn view(&self) -> HandView {
        HandView {
            groups: group_views(self.groups@),
            win_tile: self.win_tile@,
            seat_wind: self.seat_wind@,
            prevalent_wind: self.prevalent_wind@,
            conditions: self.conditions,
        }
    }
}

impl Hand {
    #[verifier::type_invariant]
    spec fn inv(&self) -> bool {
        &&& all_wf(self.groups@)
        &&& self.win_tile.wf()
        &&& self@.valid()
    }

    /// Assemble a hand won by ron without riichi from the notations of its
    /// groups, of the winning tile, and of the seat and prevalent winds.
    pub fn new(tiles: Vec<String>, win: String, seat: String, prev: String) -> (r: Result<
        Hand,
        HandErr,
    >)
        ensures
            match assemble(tiles.deep_view(), win@, seat@, prev@, WinConditions::plain()) {
                Ok(h) => r is Ok && r->Ok_0@ == h,
                Err(e) => r is Err && r->Err_0 == e,
            },
    {
        let texts = tiles.as_slice();
        Self::with_conditions(
            texts,
            win.as_str(),
            seat.as_str(),
            prev.as_str(),
            WinConditions::none(),
        )
    }

    /// Assemble a hand from the notations of its groups, of the winning
    /// tile, and of the seat and prevalent winds, and from the
    /// circumstances of the win.
    pub fn with_conditions(
        tiles: &[String],
        win: &str,
        seat: &str,
        prev: &str,
        conditions: WinConditions,
    ) -> (r: Result<Hand, HandErr>)
        ensures
            match assemble(tiles.deep_view(), win@, seat@, prev@, conditions) {
                Ok(h) => r is Ok && r->Ok_0@ == h,
                Err(e) => r is Err && r->Err_0 == e,
            },
    {
        let ghost texts = tiles.deep_view();
        if tiles.len() == 0 {
            return Err(HandErr::NoHandTiles);
        }
        if win.unicode_len() == 0 {
            return Err(HandErr::NoWinTile);
        }
        let mut groups: Vec<TileGroup> = Vec::new();
        let mut pairs: usize = 0;
        let mut kans: usize = 0;
        let mut i: usize = 0;
        proof {
            lemma_groups_of_shape_step(group_views(groups@), GroupType::Pair);
            lemma_groups_of_shape_step(group_views(groups@), GroupType::Kan);
        }
        while i < tiles.len()
            invariant
                i <= tiles.len(),
                texts == tiles.deep_view(),
                texts.len() > 0,
                win@.len() > 0,
                groups@.len() == i,
                first_group_error(texts.take(i as int)) is None,
                all_wf(groups@),
                group_views(groups@) == hand_groups(texts.take(i as int)),
                pairs == shape_count(group_views(groups@), GroupType::Pair),
                kans == shape_count(group_views(groups@), GroupType::Kan),
                pairs <= i,
                kans <= i,
            decreases tiles.len() - i,
        {
            let ghost before = group_views(groups@);
            assert(texts.take(i as int + 1).drop_last() =~= texts.take(i as int));
            let group = match TileGroup::from_text(tiles[i].as_str()) {
                Ok(group) => group,
                Err(e) => {
                    proof {
                        lemma_first_group_error_at(texts, i as int);
                    }
                    return Err(e);
                },
            };
            if group.group_type == GroupType::Single {
                proof {
                    lemma_first_group_error_at(texts, i as int);
                }
                return Err(HandErr::InvalidGroup);
            }
            if group.group_type == GroupType::Pair {
                pairs = pairs + 1;
            }
            if group.group_type == GroupType::Kan {
                kans = kans + 1;
            }
            groups.push(group);
            i = i + 1;
            proof {
                assert(group_views(groups@).drop_last() =~= before);
                lemma_groups_of_shape_step(group_views(groups@), GroupType::Pair);
                lemma_groups_of_shape_step(group_views(groups@), GroupType::Kan);
                let now = hand_groups(texts.take(i as int));
                assert forall|j: int| 0 <= j < i implies group_views(groups@)[j] == now[j] by {
                    if j < i - 1 {
                        assert(before[j] == hand_groups(texts.take(i as int - 1))[j]);
                    }
                }
            }
        }
        assert(texts.take(i as int) =~= texts);
        if !(groups.len() == 5 && pairs == 1) && !(groups.len() == 7 && pairs == 7) {
            return Err(HandErr::InvalidShape);
        }
        let win_tile = match TileGroup::from_text(win) {
            Ok(tile) => tile,
            Err(e) => {
                return Err(e);
            },
        };
        if win_tile.group_type != GroupType::Single {
            return Err(HandErr::InvalidGroup);
        }
        match conditions.check(kans > 0) {
            Ok(_) => {},
            Err(e) => {
                return Err(e);
            },
        }
        proof {
            lemma_assembled_valid(texts, win@, seat@, prev@, conditions);
        }
        Ok(
            Hand {
                groups,
                win_tile,
                seat_wind: String::from_str(seat),
                prevalent_wind: String::from_str(prev),
                conditions,
            },
        )
    }

    /// The groups of the hand, in the order in which they were given.
    pub fn groups(&self) -> (groups: &Vec<TileGroup>)
        ensures
            all_wf(groups@),
            group_views(groups@) == self@.groups,
            self@.valid(),
    {
        proof {
            use_type_invariant(self);
        }
        &self.groups
    }

    /// The groups of the given shape, in the order in which they were given.
    pub fn groups_with_shape(&self, shape: GroupType) -> (out: Vec<TileGroup>)
        ensures
            all_wf(out@),
            group_views(out@) == groups_of_shape(self@.groups, shape),
    {
        proof {
            use_type_invariant(self);
        }
        let ghost all = group_views(self.groups@);
        let mut out: Vec<TileGroup> = Vec::new();
        let mut i: usize = 0;
        proof {
            lemma_groups_of_shape_step(all.take(0), shape);
        }
        while i < self.groups.len()
            invariant
                i <= self.groups@.len(),
                all == group_views(self.groups@),
                all_wf(self.groups@),
                all_wf(out@),
                group_views(out@) == groups_of_shape(all.take(i as int), shape),
            decreases self.groups@.len() - i,
        {
            proof {
                assert(all.take(i as int + 1).drop_last() =~= all.take(i as int));
                lemma_groups_of_shape_step(all.take(i as int + 1), shape);
            }
            if self.groups[i].group_type == shape {
                out.push(self.groups[i].clone());
            }
            i = i + 1;
        }
        assert(all.take(i as int) =~= all);
        out
    }

    /// The pairs of the hand, in the order in which they were given.
    pub fn pairs(&self) -> (out: Vec<TileGroup>)
        ensures
            all_wf(out@),
            group_views(out@) == groups_of_shape(self@.groups, GroupType::Pair),
    {
        self.groups_with_shape(GroupType::Pair)
    }

    /// The triplets of the hand, in the order in which they were given.
    pub fn triplets(&self) -> (out: Vec<TileGroup>)
        ensures
            all_wf(out@),
            group_views(out@) == groups_of_shape(self@.groups, GroupType::Triplet),
    {
        self.groups_with_shape(GroupType::Triplet)
    }

    /// The kans of the hand, in the order in which they were given.
    pub fn kans(&self) -> (out: Vec<TileGroup>)
        ensures
            all_wf(out@),
            group_views(out@) == groups_of_shape(self@.groups, GroupType::Kan),
    {
        self.groups_with_shape(GroupType::Kan)
    }

    /// The sequences of the hand, in the order in which they were given.
    pub fn sequences(&self) -> (out: Vec<TileGroup>)
        ensures
            all_wf(out@),
            group_views(out@) == groups_of_shape(self@.groups, GroupType::Sequence),
    {
        self.groups_with_shape(GroupType::Sequence)
    }

    /// Whether any group of the hand is open.
    pub fn is_open(&self) -> (b: bool)
        ensures
            b == self@.is_open(),
    {
        let mut i: usize = 0;
        while i < self.groups.len()
            invariant
                i <= self.groups@.len(),
                forall|j: int| 0 <= j < i ==> !(#[trigger] group_views(self.groups@)[j]).open,
            decreases self.groups@.len() - i,
        {
            if self.groups[i].isopen {
                assert(group_views(self.groups@)[i as int].open);
                return true;
            }
            i = i + 1;
        }
        false
    }

    /// The tile that completed the hand.
    pub fn win_tile(&self) -> (tile: &TileGroup)
        ensures
            tile.wf(),
            tile@ == self@.win_tile,
            self@.valid(),
    {
        proof {
            use_type_invariant(self);
        }
        &self.win_tile
    }

    /// The seat wind, as it was given.
    pub fn seat_wind(&self) -> (wind: &String)
        ensures
            wind@ == self@.seat_wind,
    {
        &self.seat_wind
    }

    /// The prevalent wind, as it was given.
    pub fn prevalent_wind(&self) -> (wind: &String)
        ensures
            wind@ == self@.prevalent_wind,
    {
        &self.prevalent_wind
    }

    /// The circumstances of the win.
    pub fn conditions(&self) -> (c: WinConditions)
        ensures
            c == self@.conditions,
    {
        self.conditions
    }
}

} // verus!
