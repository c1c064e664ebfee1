//! Minipoints ("fu"): the itemized contributions and their rounded total.
use crate::decimal::decimal_string;
use crate::decimal::decimal_text;
use crate::decimal::digit_value;
use crate::hand::all_wf;
use crate::hand::group_views;
use crate::hand::is_seven_pairs;
use crate::hand::Hand;
use crate::hand::HandView;
use crate::tile::GroupType;
use crate::tile::GroupView;
use crate::tile::TileGroup;
use vstd::prelude::*;
use vstd::string::*;

verus! {

/// One itemized minipoint contribution.
#[derive(Debug, Clone, Copy, PartialEq, Eq, Structural)]
pub enum Fu {
    BasePoints,
    BasePointsChitoi,
    ClosedRon,
    Tsumo,
    NonSimpleClosedTriplet,
    SimpleClosedTriplet,
    NonSimpleOpenTriplet,
    SimpleOpenTriplet,
    NonSimpleClosedKan,
    SimpleClosedKan,
    NonSimpleOpenKan,
    SimpleOpenKan,
    Toitsu,
    SingleWait,
}

impl Fu {
    /// The fixed point value of a contribution.
    pub open spec fn points(self) -> nat {
        match self {
            Fu::BasePoints => 20,
            Fu::BasePointsChitoi => 25,
            Fu::ClosedRon => 10,
            Fu::Tsumo => 2,
            Fu::NonSimpleClosedTriplet => 8,
            Fu::SimpleClosedTriplet => 4,
            Fu::NonSimpleOpenTriplet => 4,
            Fu::SimpleOpenTriplet => 2,
            Fu::NonSimpleClosedKan => 32,
            Fu::SimpleClosedKan => 16,
            Fu::NonSimpleOpenKan => 16,
            Fu::SimpleOpenKan => 8,
            Fu::Toitsu => 2,
            Fu::SingleWait => 2,
        }
    }

    /// The name under which a contribution is shown.
    pub open spec fn name(self) -> Seq<char> {
        match self {
            Fu::BasePoints => "BasePoints"@,
            Fu::BasePointsChitoi => "BasePoints"@,
            Fu::ClosedRon => "ClosedRon"@,
            Fu::Tsumo => "Tsumo"@,
            Fu::NonSimpleClosedTriplet => "NonSimpleClosedTriplet"@,
            Fu::SimpleClosedTriplet => "ClosedTriplet"@,
            Fu::NonSimpleOpenTriplet => "NonSimpleOpenTriplet"@,
            Fu::SimpleOpenTriplet => "OpenTriplet"@,
            Fu::NonSimpleClosedKan => "NonSimpleClosedKan"@,
            Fu::SimpleClosedKan => "ClosedKan"@,
            Fu::NonSimpleOpenKan => "NonSimpleOpenKan"@,
            Fu::SimpleOpenKan => "OpenKan"@,
            Fu::Toitsu => "Toitsu"@,
            Fu::SingleWait => "SingleWait"@,
        }
    }

    /// The text shown for a contribution: its name, a colon, its value.
    pub open spec fn label(self) -> Seq<char> {
        self.name() + ": "@ + decimal_text(self.points())
    }

    fn name_text(&self) -> (s: &'static str)
        ensures
            s@ == self.name(),
    {
        match self {
            Fu::BasePoints => "BasePoints",
            Fu::BasePointsChitoi => "BasePoints",
            Fu::ClosedRon => "ClosedRon",
            Fu::Tsumo => "Tsumo",
            Fu::NonSimpleClosedTriplet => "NonSimpleClosedTriplet",
            Fu::SimpleClosedTriplet => "ClosedTriplet",
            Fu::NonSimpleOpenTriplet => "NonSimpleOpenTriplet",
            Fu::SimpleOpenTriplet => "OpenTriplet",
            Fu::NonSimpleClosedKan => "NonSimpleClosedKan",
            Fu::SimpleClosedKan => "ClosedKan",
            Fu::NonSimpleOpenKan => "NonSimpleOpenKan",
            Fu::SimpleOpenKan => "OpenKan",
            Fu::Toitsu => "Toitsu",
            Fu::SingleWait => "SingleWait",
        }
    }

    /// Render the contribution for a person.
    pub fn to_string(&self) -> (s: String)
        ensures
            s@ == self.label(),
    {
        let mut s = String::from_str(self.name_text());
        s.append(": ");
        s.append(decimal_string(self.value() as u32).as_str());
        s
    }

    /// Get the minipoint value.
    pub fn value(&self) -> (v: u16)
        ensures
            v == self.points(),
    {
        match self {
            Fu::BasePoints => 20,
            Fu::BasePointsChitoi => 25,
            Fu::ClosedRon => 10,
            Fu::Tsumo => 2,
            Fu::NonSimpleClosedTriplet => 8,
            Fu::SimpleClosedTriplet => 4,
            Fu::NonSimpleOpenTriplet => 4,
            Fu::SimpleOpenTriplet => 2,
            Fu::NonSimpleClosedKan => 32,
            Fu::SimpleClosedKan => 16,
            Fu::NonSimpleOpenKan => 16,
            Fu::SimpleOpenKan => 8,
            Fu::Toitsu => 2,
            Fu::SingleWait => 2,
        }
    }
}

/// The sum of the point values of a list of contributions.
pub open spec fn fu_sum(items: Seq<Fu>) -> nat
    decreases items.len(),
{
    if items.len() == 0 {
        0
    } else {
        fu_sum(items.drop_last()) + items.last().points()
    }
}

/// A sum of minipoints rounded up to the next multiple of ten.
pub open spec fn round_up_to_ten(n: nat) -> nat {
    ((n + 9) / 10) * 10
}

/// Sum up all of the fu, rounding up to the next multiple of 10.
pub fn calculate_total_fu_value(fu: &[Fu]) -> (total: u16)
    requires
        fu_sum(fu@) + 9 <= u16::MAX,
    ensures
        total == round_up_to_ten(fu_sum(fu@)),
{
    let mut sum: u16 = 0;
    let mut i: usize = 0;
    while i < fu.len()
        invariant
            i <= fu.len(),
            sum == fu_sum(fu@.take(i as int)),
            fu_sum(fu@) + 9 <= u16::MAX,
        decreases fu.len() - i,
    {
        proof {
            lemma_fu_sum_prefix(fu@, i as int + 1);
            assert(fu@.take(i as int + 1).drop_last() =~= fu@.take(i as int));
        }
        sum = sum + fu[i].value();
        i = i + 1;
    }
    proof {
        assert(fu@.take(i as int) =~= fu@);
    }
    ((sum + 9) / 10) * 10
}

/// The sum over a prefix never exceeds the sum over the whole list.
pub proof fn lemma_fu_sum_prefix(items: Seq<Fu>, n: int)
    requires
        0 <= n <= items.len(),
    ensures
        fu_sum(items.take(n)) <= fu_sum(items),
    decreases items.len(),
{
    if n == items.len() {
        assert(items.take(n) =~= items);
    } else {
        lemma_fu_sum_prefix(items.drop_last(), n);
        assert(items.drop_last().take(n) =~= items.take(n));
    }
}

/// Every contribution is worth at most 32 points.
pub proof fn lemma_fu_sum_bound(items: Seq<Fu>)
    ensures
        fu_sum(items) <= 32 * items.len(),
    decreases items.len(),
{
    if items.len() > 0 {
        lemma_fu_sum_bound(items.drop_last());
    }
}

/// A list is worth at least as much as its first contribution.
pub proof fn lemma_fu_sum_first(items: Seq<Fu>)
    requires
        items.len() > 0,
    ensures
        fu_sum(items) >= items[0].points(),
    decreases items.len(),
{
    if items.len() > 1 {
        lemma_fu_sum_first(items.drop_last());
    }
}

/// The contribution of a triplet or a kan, by whether it is simple and
/// whether it counts as open. Other shapes contribute nothing.
pub open spec fn meld_fu(g: GroupView, open: bool) -> Option<Fu> {
    let simple = !g.terminal && !g.is_honor();
    match g.shape {
        GroupType::Triplet => Some(
            if simple {
                if open {
                    Fu::SimpleOpenTriplet
                } else {
                    Fu::SimpleClosedTriplet
                }
            } else {
                if open {
                    Fu::NonSimpleOpenTriplet
                } else {
                    Fu::NonSimpleClosedTriplet
                }
            },
        ),
        GroupType::Kan => Some(
            if simple {
                if open {
                    Fu::SimpleOpenKan
                } else {
                    Fu::SimpleClosedKan
                }
            } else {
                if open {
                    Fu::NonSimpleOpenKan
                } else {
                    Fu::NonSimpleClosedKan
                }
            },
        ),
        _ => None,
    }
}

/// A closed wait: the winning tile is the middle tile of the sequence that
/// starts at `first`.
pub open spec fn is_closed_wait(first: char, win: char) -> bool {
    &&& digit_value(first) is Some
    &&& digit_value(win) is Some
    &&& digit_value(win)->0 == digit_value(first)->0 + 1
}

/// An edge wait: the 3 of the sequence 123 or the 7 of the sequence 789.
pub open spec fn is_edge_wait(first: char, win: char) -> bool {
    (first == '1' && win == '3') || (first == '7' && win == '7')
}

impl HandView {
    /// Whether the winning tile is of the suit of the group at place `i`.
    pub open spec fn wins_in_suit_of(self, i: int) -> bool {
        self.win_tile.suit == self.groups[i].suit
    }

    /// Whether the winning tile is the tile that the group at place `i` is
    /// made of: it has the group's rank and suit.
    pub open spec fn wins_on_tile_of(self, i: int) -> bool {
        self.win_tile.rank == self.groups[i].rank && self.wins_in_suit_of(i)
    }

    /// Whether a discard completed the group at place `i`: the hand was won
    /// by ron, and the group is a triplet of the winning tile that stands
    /// last.
    pub open spec fn completed_by_ron(self, i: int, tsumo: bool) -> bool {
        &&& !tsumo
        &&& i == self.groups.len() - 1
        &&& self.groups[i].shape == GroupType::Triplet
        &&& self.wins_on_tile_of(i)
    }

    /// Whether the group at place `i` counts as open: it is open, or it is
    /// a triplet that a discard completed.
    pub open spec fn counts_open(self, i: int, tsumo: bool) -> bool {
        self.groups[i].open || self.completed_by_ron(i, tsumo)
    }

    /// The contributions of the triplets and kans among the first `n`
    /// groups, in the order of the groups.
    pub open spec fn meld_items(self, tsumo: bool, n: int) -> Seq<Fu>
        decreases n,
    {
        if n <= 0 {
            Seq::empty()
        } else {
            match meld_fu(self.groups[n - 1], self.counts_open(n - 1, tsumo)) {
                Some(item) => self.meld_items(tsumo, n - 1).push(item),
                None => self.meld_items(tsumo, n - 1),
            }
        }
    }

    /// The contributions of the pairs among the first `n` groups: one for
    /// each pair of a value rank.
    pub open spec fn pair_items(self, n: int) -> Seq<Fu>
        decreases n,
    {
        if n <= 0 {
            Seq::empty()
        } else if self.groups[n - 1].shape == GroupType::Pair && self.is_value_rank(
            self.groups[n - 1].rank,
        ) {
            self.pair_items(n - 1).push(Fu::Toitsu)
        } else {
            self.pair_items(n - 1)
        }
    }

    /// Whether the hand was completed on a single wait: the winning tile
    /// is the tile of the pair that stands last, or it is, in the suit of
    /// the sequence that stands last, the middle of that sequence or the
    /// inner end of 123 or 789.
    pub open spec fn single_wait(self) -> bool {
        let at = self.groups.len() - 1;
        let last = self.groups[at];
        let win = self.win_tile.rank;
        ||| last.shape == GroupType::Pair && self.wins_on_tile_of(at)
        ||| {
            &&& last.shape == GroupType::Sequence
            &&& self.wins_in_suit_of(at)
            &&& is_closed_wait(last.rank, win) || is_edge_wait(last.rank, win)
        }
    }

    /// The contribution that every hand starts from.
    pub open spec fn base_item(self) -> Fu {
        if is_seven_pairs(self.groups) {
            Fu::BasePointsChitoi
        } else {
            Fu::BasePoints
        }
    }

    /// The contribution of the way the hand was won: a self-draw, or else
    /// a ron on a closed hand. A ron on an open hand contributes nothing.
    pub open spec fn win_items(self, tsumo: bool) -> Seq<Fu> {
        if tsumo {
            seq![Fu::Tsumo]
        } else if !self.is_open() {
            seq![Fu::ClosedRon]
        } else {
            Seq::empty()
        }
    }

    /// The contribution of the wait.
    pub open spec fn wait_items(self) -> Seq<Fu> {
        if self.single_wait() {
            seq![Fu::SingleWait]
        } else {
            Seq::empty()
        }
    }

    /// The itemized minipoints of the hand, in their fixed order: the base,
    /// the way of winning, the triplets and kans, the pairs, the wait.
    pub open spec fn fu_items(self, tsumo: bool) -> Seq<Fu> {
        seq![self.base_item()] + self.win_items(tsumo) + self.meld_items(
            tsumo,
            self.groups.len() as int,
        ) + self.pair_items(self.groups.len() as int) + self.wait_items()
    }

    /// The minipoints of the hand: the sum of its items, rounded up to the
    /// next multiple of ten.
    pub open spec fn fu_total(self, tsumo: bool) -> nat {
        round_up_to_ten(fu_sum(self.fu_items(tsumo)))
    }
}

/// The itemized lists of a hand are short.
pub proof fn lemma_item_counts(h: HandView, tsumo: bool, n: int)
    requires
        0 <= n,
    ensures
        h.meld_items(tsumo, n).len() <= n,
        h.pair_items(n).len() <= n,
    decreases n,
{
    if n > 0 {
        lemma_item_counts(h, tsumo, n - 1);
    }
}

/// The minipoints of a valid hand are a multiple of ten and at least 20,
/// and at least 25 for seven pairs.
pub proof fn lemma_fu_total_bounds(h: HandView, tsumo: bool)
    requires
        h.valid(),
    ensures
        h.fu_total(tsumo) % 10 == 0,
        h.fu_total(tsumo) >= 20,
        is_seven_pairs(h.groups) ==> h.fu_total(tsumo) >= 25,
        fu_sum(h.fu_items(tsumo)) <= 32 * 17,
{
    let items = h.fu_items(tsumo);
    lemma_item_counts(h, tsumo, h.groups.len() as int);
    lemma_fu_sum_first(items);
    lemma_fu_sum_bound(items);
}

fn rank_number(c: char) -> (n: Option<u8>)
    ensures
        n is Some <==> digit_value(c) is Some,
        n is Some ==> n->0 == digit_value(c)->0,
{
    if c == '0' {
        Some(0)
    } else if c == '1' {
        Some(1)
    } else if c == '2' {
        Some(2)
    } else if c == '3' {
        Some(3)
    } else if c == '4' {
        Some(4)
    } else if c == '5' {
        Some(5)
    } else if c == '6' {
        Some(6)
    } else if c == '7' {
        Some(7)
    } else if c == '8' {
        Some(8)
    } else if c == '9' {
        Some(9)
    } else {
        None
    }
}

fn closed_wait(first: char, win: char) -> (b: bool)
    ensures
        b == is_closed_wait(first, win),
{
    match (rank_number(first), rank_number(win)) {
        (Some(a), Some(b)) => b == a + 1,
        _ => false,
    }
}

fn fu_of_meld(group: &TileGroup, open: bool) -> (item: Option<Fu>)
    ensures
        item == meld_fu(group@, open),
{
    let simple = !group.isterminal && !group.is_honor();
    match group.group_type {
        GroupType::Triplet => Some(
            if simple {
                if open {
                    Fu::SimpleOpenTriplet
                } else {
                    Fu::SimpleClosedTriplet
                }
            } else {
                if open {
                    Fu::NonSimpleOpenTriplet
                } else {
                    Fu::NonSimpleClosedTriplet
                }
            },
        ),
        GroupType::Kan => Some(
            if simple {
                if open {
                    Fu::SimpleOpenKan
                } else {
                    Fu::SimpleClosedKan
                }
            } else {
                if open {
                    Fu::NonSimpleOpenKan
                } else {
                    Fu::NonSimpleClosedKan
                }
            },
        ),
        _ => None,
    }
}

impl Hand {
    /// Whether the hand was completed on a single wait.
    pub fn is_single_wait(&self) -> (b: bool)
        ensures
            b == self@.single_wait(),
    {
        let groups = self.groups();
        let tile = self.win_tile();
        let win = tile.rank();
        let last = &groups[groups.len() - 1];
        assert(last@ == self@.groups[self@.groups.len() - 1]);
        if tile.suit != last.suit {
            false
        } else if last.group_type == GroupType::Pair {
            win == last.rank()
        } else if last.group_type == GroupType::Sequence {
            let first = last.rank();
            closed_wait(first, win) || (first == '1' && win == '3') || (first == '7' && win
                == '7')
        } else {
            false
        }
    }

    /// Itemize the minipoints of the hand, won by self-draw or by ron, and
    /// total them.
    ///
    /// The items come in a fixed order: the base points; the way of
    /// winning; one item for each triplet and kan, in the order of the
    /// groups; one for each pair of a value rank; the single wait. The
    /// total is their sum, rounded up to the next multiple of ten.
    ///
    /// A triplet or kan counts as open or closed as it was given, but for a
    /// closed triplet of the winning tile that stands last in a hand won by
    /// ron: the discard completed it, and it counts as open.
    pub fn calculate_fu(&self, tsumo: bool) -> (r: (u16, Vec<Fu>))
        ensures
            r.1@ == self@.fu_items(tsumo),
            r.0 == self@.fu_total(tsumo),
            r.0 % 10 == 0,
            r.0 >= 20,
            is_seven_pairs(self@.groups) ==> r.0 >= 25,
    {
        let groups = self.groups();
        let ghost h = self@;
        let n = groups.len();
        let mut items: Vec<Fu> = Vec::new();
        if n == 7 {
            items.push(Fu::BasePointsChitoi);
        } else {
            items.push(Fu::BasePoints);
        }
        if tsumo {
            items.push(Fu::Tsumo);
        } else if !self.is_open() {
            items.push(Fu::ClosedRon);
        }
        let ghost head = items@;
        let win = self.win_tile();
        let mut i: usize = 0;
        while i < n
            invariant
                i <= n,
                n == groups@.len(),
                all_wf(groups@),
                group_views(groups@) == h.groups,
                win.wf(),
                win@ == h.win_tile,
                items@ == head + h.meld_items(tsumo, i as int),
            decreases n - i,
        {
            let group = &groups[i];
            assert(group@ == h.groups[i as int]);
            let by_ron = !tsumo && i == n - 1 && group.group_type == GroupType::Triplet
                && win.rank() == group.rank() && win.suit == group.suit;
            let open = group.isopen || by_ron;
            if let Some(item) = fu_of_meld(group, open) {
                items.push(item);
            }
            i = i + 1;
        }
        let ghost melds = items@;
        let mut i: usize = 0;
        while i < n
            invariant
                i <= n,
                n == groups@.len(),
                all_wf(groups@),
                group_views(groups@) == h.groups,
                h == self@,
                items@ == melds + h.pair_items(i as int),
            decreases n - i,
        {
            let group = &groups[i];
            if group.group_type == GroupType::Pair && self.is_value_rank(group.rank()) {
                items.push(Fu::Toitsu);
            }
            i = i + 1;
        }
        if self.is_single_wait() {
            items.push(Fu::SingleWait);
        }
        assert(items@ =~= h.fu_items(tsumo));
        proof {
            lemma_fu_total_bounds(h, tsumo);
        }
        let total = calculate_total_fu_value(items.as_slice());
        (total, items)
    }
}

} // verus!
