//! Yaku: the scoring patterns of a hand. Each is read off the hand alone,
//! independently of the others.
use crate::hand::all_wf;
use crate::hand::group_views;
use crate::hand::groups_of_shape;
use crate::hand::is_standard_shape;
use crate::hand::lemma_shape_count_two;
use crate::hand::Hand;
use crate::hand::HandView;
use crate::tile::is_dragon_rank;
use crate::tile::GroupType;
use crate::tile::GroupView;
use crate::tile::TileGroup;
use vstd::prelude::*;
use vstd::string::*;

verus! {

/// The rank that a wind text names: its first character.
pub open spec fn wind_rank(wind: Seq<char>) -> Option<char> {
    if wind.len() > 0 {
        Some(wind[0])
    } else {
        None
    }
}

impl HandView {
    /// Whether a rank is that of the seat wind.
    pub open spec fn is_seat_rank(self, rank: char) -> bool {
        wind_rank(self.seat_wind) == Some(rank)
    }

    /// Whether a rank is that of the prevalent wind.
    pub open spec fn is_prevalent_rank(self, rank: char) -> bool {
        wind_rank(self.prevalent_wind) == Some(rank)
    }

    /// Whether a rank is a value rank in this hand: the seat wind, the
    /// prevalent wind, or a dragon.
    pub open spec fn is_value_rank(self, rank: char) -> bool {
        self.is_seat_rank(rank) || self.is_prevalent_rank(rank) || is_dragon_rank(rank)
    }

    /// What one group adds to the yakuhai count: a triplet or kan of a
    /// value rank counts once, and twice when its rank is both the seat
    /// and the prevalent wind.
    pub open spec fn yakuhai_of(self, g: GroupView) -> nat {
        if g.shape != GroupType::Triplet && g.shape != GroupType::Kan {
            0
        } else if self.is_seat_rank(g.rank) && self.is_prevalent_rank(g.rank) {
            2
        } else if self.is_value_rank(g.rank) {
            1
        } else {
            0
        }
    }

    /// The yakuhai count of the first `n` groups.
    pub open spec fn yakuhai_upto(self, n: int) -> nat
        decreases n,
    {
        if n <= 0 {
            0
        } else {
            self.yakuhai_upto(n - 1) + self.yakuhai_of(self.groups[n - 1])
        }
    }

    /// Yakuhai: the count over all groups of the hand.
    pub open spec fn yakuhai(self) -> nat {
        self.yakuhai_upto(self.groups.len() as int)
    }

    /// Tanyao: no group is terminal or honor.
    pub open spec fn tanyao(self) -> bool {
        forall|i: int|
            0 <= i < self.groups.len() ==> !(#[trigger] self.groups[i]).terminal
                && !self.groups[i].is_honor()
    }

    /// Whether the groups at two places are sequences of the same tiles.
    pub open spec fn twin_sequences(self, i: int, j: int) -> bool {
        &&& 0 <= i < j < self.groups.len()
        &&& self.groups[i].shape == GroupType::Sequence
        &&& self.groups[i].same_tiles(self.groups[j])
    }

    /// Iipeikou: the hand is closed and holds two sequences of the same
    /// tiles.
    pub open spec fn iipeikou(self) -> bool {
        !self.is_open() && exists|i: int, j: int| self.twin_sequences(i, j)
    }

    /// Ryanpeikou: the hand is closed, has four sequences, and these fall
    /// into two pairs of sequences of the same tiles.
    pub open spec fn ryanpeikou(self) -> bool {
        let runs = groups_of_shape(self.groups, GroupType::Sequence);
        &&& !self.is_open()
        &&& runs.len() == 4
        &&& {
            ||| runs[0].same_tiles(runs[1]) && runs[2].same_tiles(runs[3])
            ||| runs[0].same_tiles(runs[2]) && runs[1].same_tiles(runs[3])
            ||| runs[0].same_tiles(runs[3]) && runs[1].same_tiles(runs[2])
        }
    }
}

impl HandView {
    /// The han of the yaku that the hand holds: one for riichi, one for
    /// each count of yakuhai, one for tanyao, and three for ryanpeikou or
    /// else one for iipeikou.
    pub open spec fn yaku_han(self) -> nat {
        (if self.conditions.riichi {
            1nat
        } else {
            0nat
        }) + self.yakuhai() + (if self.tanyao() {
            1nat
        } else {
            0nat
        }) + (if self.ryanpeikou() {
            3nat
        } else if self.iipeikou() {
            1nat
        } else {
            0nat
        })
    }
}

/// A valid hand with four sequences is of the standard shape, and its four
/// groups beside the pair are the sequences.
pub proof fn lemma_four_sequences(h: HandView)
    requires
        h.valid(),
        groups_of_shape(h.groups, GroupType::Sequence).len() == 4,
    ensures
        is_standard_shape(h.groups),
        forall|i: int|
            0 <= i < h.groups.len() ==> (#[trigger] h.groups[i]).shape == GroupType::Pair
                || h.groups[i].shape == GroupType::Sequence,
{
    lemma_shape_count_two(h.groups, GroupType::Pair, GroupType::Sequence);
}

/// The first character of a text, if it has one.
fn first_char(text: &str) -> (c: Option<char>)
    ensures
        c == wind_rank(text@),
{
    if text.unicode_len() > 0 {
        Some(text.get_char(0))
    } else {
        None
    }
}

fn is_dragon(c: char) -> (b: bool)
    ensures
        b == is_dragon_rank(c),
{
    c == 'r' || c == 'g' || c == 'w'
}

fn is_rank_of(wind: Option<char>, rank: char) -> (b: bool)
    ensures
        b == (wind == Some(rank)),
{
    match wind {
        Some(c) => c == rank,
        None => false,
    }
}

fn same_tiles(a: &TileGroup, b: &TileGroup) -> (r: bool)
    requires
        a.wf(),
        b.wf(),
    ensures
        r == a@.same_tiles(b@),
{
    a.group_type == b.group_type && a.rank() == b.rank() && a.suit == b.suit
}

impl Hand {
    /// Whether a rank is a value rank in this hand: the seat wind, the
    /// prevalent wind, or a dragon.
    pub fn is_value_rank(&self, rank: char) -> (b: bool)
        ensures
            b == self@.is_value_rank(rank),
    {
        is_rank_of(first_char(self.seat_wind().as_str()), rank) || is_rank_of(
            first_char(self.prevalent_wind().as_str()),
            rank,
        ) || is_dragon(rank)
    }

    /// Yakuhai: one for each triplet or kan of the seat wind, of the
    /// prevalent wind or of a dragon, and two where the rank is both the
    /// seat and the prevalent wind.
    pub fn is_yakuhai(&self) -> (count: u16)
        ensures
            count == self@.yakuhai(),
            count <= 14,
    {
        let groups = self.groups();
        let seat = first_char(self.seat_wind().as_str());
        let prevalent = first_char(self.prevalent_wind().as_str());
        let mut count: u16 = 0;
        let mut i: usize = 0;
        while i < groups.len()
            invariant
                i <= groups@.len(),
                groups@.len() <= 7,
                all_wf(groups@),
                group_views(groups@) == self@.groups,
                seat == wind_rank(self@.seat_wind),
                prevalent == wind_rank(self@.prevalent_wind),
                count == self@.yakuhai_upto(i as int),
                count <= 2 * i,
            decreases groups@.len() - i,
        {
            let group = &groups[i];
            if group.group_type == GroupType::Triplet || group.group_type == GroupType::Kan {
                let rank = group.rank();
                let is_seat = is_rank_of(seat, rank);
                let is_prevalent = is_rank_of(prevalent, rank);
                if is_seat && is_prevalent {
                    count = count + 2;
                } else if is_seat || is_prevalent || is_dragon(rank) {
                    count = count + 1;
                }
            }
            i = i + 1;
        }
        count
    }

    /// Tanyao: true when no group of the hand is terminal or honor.
    pub fn is_tanyao(&self) -> (b: bool)
        ensures
            b == self@.tanyao(),
    {
        let groups = self.groups();
        let mut i: usize = 0;
        while i < groups.len()
            invariant
                i <= groups@.len(),
                group_views(groups@) == self@.groups,
                forall|j: int|
                    0 <= j < i ==> !(#[trigger] self@.groups[j]).terminal
                        && !self@.groups[j].is_honor(),
            decreases groups@.len() - i,
        {
            assert(groups@[i as int]@ == self@.groups[i as int]);
            if groups[i].isterminal || groups[i].is_honor() {
                return false;
            }
            i = i + 1;
        }
        true
    }

    /// Iipeikou: true when the hand is closed and holds two sequences of
    /// the same rank and suit.
    pub fn is_iipeikou(&self) -> (b: bool)
        ensures
            b == self@.iipeikou(),
            self@.is_open() ==> !b,
    {
        if self.is_open() {
            return false;
        }
        let groups = self.groups();
        let mut i: usize = 0;
        while i < groups.len()
            invariant
                i <= groups@.len(),
                all_wf(groups@),
                group_views(groups@) == self@.groups,
                !self@.is_open(),
                forall|a: int, b: int| 0 <= a < i ==> !self@.twin_sequences(a, b),
            decreases groups@.len() - i,
        {
            if groups[i].group_type == GroupType::Sequence {
                let mut j: usize = i + 1;
                while j < groups.len()
                    invariant
                        i < j <= groups@.len(),
                        all_wf(groups@),
                        group_views(groups@) == self@.groups,
                        groups@[i as int].group_type == GroupType::Sequence,
                        !self@.is_open(),
                        forall|b: int| 0 <= b < j ==> !self@.twin_sequences(i as int, b),
                    decreases groups@.len() - j,
                {
                    if same_tiles(&groups[i], &groups[j]) {
                        assert(self@.twin_sequences(i as int, j as int));
                        return true;
                    }
                    j = j + 1;
                }
            }
            i = i + 1;
        }
        false
    }

    /// Ryanpeikou: true when the hand is closed and its four groups beside
    /// the pair are sequences that fall into two pairs of the same rank
    /// and suit.
    pub fn is_ryanpeikou(&self) -> (b: bool)
        ensures
            b == self@.ryanpeikou(),
            self@.is_open() ==> !b,
    {
        if self.is_open() {
            return false;
        }
        let runs = self.sequences();
        if runs.len() != 4 {
            return false;
        }
        (same_tiles(&runs[0], &runs[1]) && same_tiles(&runs[2], &runs[3])) || (same_tiles(
            &runs[0],
            &runs[2],
        ) && same_tiles(&runs[1], &runs[3])) || (same_tiles(&runs[0], &runs[3]) && same_tiles(
            &runs[1],
            &runs[2],
        ))
    }
}

impl Hand {
    /// The han of the yaku that the hand holds.
    pub fn yaku_han(&self) -> (han: u16)
        ensures
            han == self@.yaku_han(),
            han <= 19,
    {
        let mut han: u16 = self.is_yakuhai();
        if self.conditions().riichi {
            han = han + 1;
        }
        if self.is_tanyao() {
            han = han + 1;
        }
        if self.is_ryanpeikou() {
            han = han + 3;
        } else if self.is_iipeikou() {
            han = han + 1;
        }
        han
    }
}

} // verus!
