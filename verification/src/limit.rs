//! Limit hands: the tiers from mangan upwards and their fixed payments.
use vstd::prelude::*;

verus! {

/// The tiers of hands whose payments no longer depend on han and fu.
#[derive(Debug, Clone, Copy, PartialEq, Eq, Structural)]
pub enum LimitHands {
    Mangan,
    Haneman,
    Baiman,
    Sanbaiman,
    KazoeYakuman,
}

/// Whether a hand is a limit hand: five han or more, four han with at
/// least 40 fu, or three han with at least 70 fu.
pub open spec fn is_limit(han: int, fu: int) -> bool {
    han >= 5 || (han == 4 && fu >= 40) || (han == 3 && fu >= 70)
}

/// The tier that a number of han selects among the limit hands.
pub open spec fn tier_of(han: int) -> LimitHands {
    if han <= 5 {
        LimitHands::Mangan
    } else if han <= 7 {
        LimitHands::Haneman
    } else if han <= 10 {
        LimitHands::Baiman
    } else if han <= 12 {
        LimitHands::Sanbaiman
    } else {
        LimitHands::KazoeYakuman
    }
}

/// The limit hand of a hand with the given han and fu, if it is one.
pub open spec fn limit_of(han: int, fu: int) -> Option<LimitHands> {
    if is_limit(han, fu) {
        Some(tier_of(han))
    } else {
        None
    }
}

/// The payments of a mangan: dealer ron, dealer tsumo from each player,
/// non-dealer ron, non-dealer tsumo from a non-dealer and from the dealer.
pub open spec fn mangan_payments() -> Seq<u16> {
    seq![12000u16, 4000u16, 8000u16, 2000u16, 4000u16]
}

impl LimitHands {
    /// The size of a tier in halves of a mangan: a haneman is one and a
    /// half mangan, a baiman two, a sanbaiman three, a kazoe yakuman four.
    pub open spec fn halves(self) -> int {
        match self {
            LimitHands::Mangan => 2,
            LimitHands::Haneman => 3,
            LimitHands::Baiman => 4,
            LimitHands::Sanbaiman => 6,
            LimitHands::KazoeYakuman => 8,
        }
    }

    /// The payments of a tier: those of a mangan, scaled.
    pub open spec fn payments(self) -> Seq<u16> {
        Seq::new(5, |i: int| (mangan_payments()[i] * self.halves() / 2) as u16)
    }

    /// Check if the score of the hand is limited.
    pub fn is_limit_hand(han: u16, fu: u16) -> (b: bool)
        ensures
            b == is_limit(han as int, fu as int),
    {
        if han >= 5 {
            return true;
        }
        if han == 4 && fu >= 40 {
            return true;
        }
        if han == 3 && fu >= 70 {
            return true;
        }
        false
    }

    /// Calculate the limit hand type from the han and fu scores.
    pub fn get_limit_hand(han: u16, fu: u16) -> (r: Option<LimitHands>)
        ensures
            r == limit_of(han as int, fu as int),
    {
        if !Self::is_limit_hand(han, fu) {
            return None;
        }
        if han <= 5 {
            Some(LimitHands::Mangan)
        } else if han <= 7 {
            Some(LimitHands::Haneman)
        } else if han <= 10 {
            Some(LimitHands::Baiman)
        } else if han <= 12 {
            Some(LimitHands::Sanbaiman)
        } else {
            Some(LimitHands::KazoeYakuman)
        }
    }

    fn half_mangans(&self) -> (h: u32)
        ensures
            h == self.halves(),
    {
        match self {
            LimitHands::Mangan => 2,
            LimitHands::Haneman => 3,
            LimitHands::Baiman => 4,
            LimitHands::Sanbaiman => 6,
            LimitHands::KazoeYakuman => 8,
        }
    }

    /// Get the payment amounts.
    ///
    /// Format is as follows:
    ///
    /// - dealer_ron
    /// - dealer_tsumo
    /// - non_dealer_ron
    /// - non_dealer_tsumo_to_non_dealer
    /// - non_dealer_tsumo_to_dealer
    pub fn get_score(&self) -> (out: Vec<u16>)
        ensures
            out@ == self.payments(),
    {
        let mangan: [u16; 5] = [12000, 4000, 8000, 2000, 4000];
        let halves = self.half_mangans();
        let mut out: Vec<u16> = Vec::new();
        let mut i: usize = 0;
        while i < 5
            invariant
                i <= 5,
                mangan@ == mangan_payments(),
                halves == self.halves(),
                out@.len() == i,
                forall|j: int| 0 <= j < i ==> out@[j] == self.payments()[j],
            decreases 5 - i,
        {
            let scaled: u32 = mangan[i] as u32 * halves / 2;
            out.push(scaled as u16);
            i = i + 1;
        }
        out
    }
}

} // verus!
