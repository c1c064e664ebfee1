//! From han and fu to payments.
//!
//! A payment list always has five entries, in this order: what a dealer
//! gets on ron, what a dealer gets from each player on tsumo, what a
//! non-dealer gets on ron, and what a non-dealer gets on tsumo from each
//! non-dealer and from the dealer.
use crate::error::HandErr;
use crate::hand::assemble;
use crate::hand::Hand;
use crate::hand::HandView;
use crate::hand::WinConditions;
use crate::limit::limit_of;
use crate::limit::LimitHands;
use vstd::prelude::*;
use vstd::string::*;

verus! {

/// Why han and fu could not be turned into payments.
#[derive(Debug, Clone, Copy, PartialEq, Eq, Structural)]
pub enum CalculatorErrors {
    NoHan,
    NoFu,
}

impl CalculatorErrors {
    /// The text shown to a person for each error.
    pub open spec fn message(self) -> Seq<char> {
        match self {
            CalculatorErrors::NoHan => "No Han provided!"@,
            CalculatorErrors::NoFu => "No Fu provided!"@,
        }
    }

    /// Render the error for a person.
    pub fn to_string(&self) -> (s: String)
        ensures
            s@ == self.message(),
    {
        match self {
            CalculatorErrors::NoHan => String::from_str("No Han provided!"),
            CalculatorErrors::NoFu => String::from_str("No Fu provided!"),
        }
    }
}

/// Two to the power of `n`.
pub open spec fn two_pow(n: nat) -> nat
    decreases n,
{
    if n == 0 {
        1
    } else {
        2 * two_pow((n - 1) as nat)
    }
}

/// The basic points of a hand below the limit: fu times two to the power
/// of han plus two.
pub open spec fn basic_points(han: nat, fu: nat) -> nat {
    fu * two_pow(han + 2)
}

/// A number of points rounded up to the next multiple of a hundred.
pub open spec fn round_up_to_hundred(n: nat) -> nat {
    ((n + 99) / 100) * 100
}

/// The payments of a hand before the honba bonus: the table of its tier
/// for a limit hand, else the rounded multiples of its basic points.
pub open spec fn base_payments(han: nat, fu: nat) -> Seq<nat> {
    match limit_of(han as int, fu as int) {
        Some(tier) => Seq::new(5, |i: int| tier.payments()[i] as nat),
        None => {
            let basic = basic_points(han, fu);
            seq![
                round_up_to_hundred(basic * 6),
                round_up_to_hundred(basic * 2),
                round_up_to_hundred(basic * 4),
                round_up_to_hundred(basic),
                round_up_to_hundred(basic * 2),
            ]
        },
    }
}

/// What the honba counter adds: 300 a counter to each ron payment and 100
/// a counter to each tsumo payment.
pub open spec fn honba_bonus(honba: nat) -> Seq<nat> {
    seq![300 * honba, 100 * honba, 300 * honba, 100 * honba, 100 * honba]
}

/// The payments of a hand with at least one han and some fu.
pub open spec fn payments(han: nat, fu: nat, honba: nat) -> Seq<nat> {
    Seq::new(5, |i: int| base_payments(han, fu)[i] + honba_bonus(honba)[i])
}

/// The five payments of a tuple, as a list.
pub open spec fn tuple_payments(t: (u32, u32, u32, u32, u32)) -> Seq<nat> {
    seq![t.0 as nat, t.1 as nat, t.2 as nat, t.3 as nat, t.4 as nat]
}

/// The five payments of a vector, as a list.
pub open spec fn vec_payments(v: Seq<u32>) -> Seq<nat> {
    Seq::new(v.len(), |i: int| v[i] as nat)
}

fn two_to(n: u16) -> (p: u32)
    requires
        n <= 6,
    ensures
        p == two_pow(n as nat),
        p <= 64,
{
    let mut p: u32 = 1;
    let mut i: u16 = 0;
    while i < n
        invariant
            i <= n <= 6,
            p == two_pow(i as nat),
        decreases n - i,
    {
        proof {
            lemma_two_pow_monotonic(i as nat, 5);
            assert(two_pow(5) == 32) by {
                reveal_with_fuel(two_pow, 6);
            }
        }
        p = p * 2;
        i = i + 1;
    }
    proof {
        lemma_two_pow_monotonic(n as nat, 6);
        assert(two_pow(6) == 64) by {
            reveal_with_fuel(two_pow, 7);
        }
    }
    p
}

/// Powers of two grow with the exponent.
pub proof fn lemma_two_pow_monotonic(a: nat, b: nat)
    requires
        a <= b,
    ensures
        two_pow(a) <= two_pow(b),
    decreases b,
{
    if a < b {
        lemma_two_pow_monotonic(a, (b - 1) as nat);
    }
}

fn round_up_hundred(n: u32) -> (r: u32)
    requires
        n <= 100_000_000,
    ensures
        r == round_up_to_hundred(n as nat),
        r <= n + 99,
{
    ((n + 99) / 100) * 100
}

/// The payments for a hand of `han` han and `fu` fu after `honba` honba.
///
/// A hand without han or without fu has no payments. Limit hands are paid
/// by their tier's table, others by their rounded basic points, and the
/// honba bonus is added to both alike.
pub fn score(han: u16, fu: u16, honba: u16) -> (r: Result<
    (u32, u32, u32, u32, u32),
    CalculatorErrors,
>)
    ensures
        han == 0 ==> r == Err::<(u32, u32, u32, u32, u32), CalculatorErrors>(
            CalculatorErrors::NoHan,
        ),
        han != 0 && fu == 0 ==> r == Err::<(u32, u32, u32, u32, u32), CalculatorErrors>(
            CalculatorErrors::NoFu,
        ),
        han != 0 && fu != 0 ==> r is Ok && tuple_payments(r->Ok_0) == payments(
            han as nat,
            fu as nat,
            honba as nat,
        ),
{
    if han == 0 {
        return Err(CalculatorErrors::NoHan);
    }
    if fu == 0 {
        return Err(CalculatorErrors::NoFu);
    }
    let ron_bonus: u32 = 300 * (honba as u32);
    let tsumo_bonus: u32 = 100 * (honba as u32);
    let base: (u32, u32, u32, u32, u32) = match LimitHands::get_limit_hand(han, fu) {
        Some(tier) => {
            let table = tier.get_score();
            (
                table[0] as u32,
                table[1] as u32,
                table[2] as u32,
                table[3] as u32,
                table[4] as u32,
            )
        },
        None => {
            let factor = two_to(han + 2);
            assert(fu * factor <= 65535 * 64) by (nonlinear_arith)
                requires
                    fu <= 65535,
                    factor <= 64,
            ;
            let basic: u32 = fu as u32 * factor;
            (
                round_up_hundred(basic * 6),
                round_up_hundred(basic * 2),
                round_up_hundred(basic * 4),
                round_up_hundred(basic),
                round_up_hundred(basic * 2),
            )
        },
    };
    let out = (
        base.0 + ron_bonus,
        base.1 + tsumo_bonus,
        base.2 + ron_bonus,
        base.3 + tsumo_bonus,
        base.4 + tsumo_bonus,
    );
    Ok(out)
}

/// The payments for the han and fu given as the first two entries of
/// `args`, as a vector of five.
pub fn calculate(args: &[u16], honba: u16) -> (r: Result<Vec<u32>, CalculatorErrors>)
    requires
        args@.len() >= 2,
    ensures
        args@[0] == 0 ==> r == Err::<Vec<u32>, CalculatorErrors>(CalculatorErrors::NoHan),
        args@[0] != 0 && args@[1] == 0 ==> r == Err::<Vec<u32>, CalculatorErrors>(
            CalculatorErrors::NoFu,
        ),
        args@[0] != 0 && args@[1] != 0 ==> r is Ok && vec_payments(r->Ok_0@) == payments(
            args@[0] as nat,
            args@[1] as nat,
            honba as nat,
        ),
        r is Ok ==> r->Ok_0@.len() == 5,
{
    match score(args[0], args[1], honba) {
        Ok(t) => {
            let mut out: Vec<u32> = Vec::new();
            out.push(t.0);
            out.push(t.1);
            out.push(t.2);
            out.push(t.3);
            out.push(t.4);
            Ok(out)
        },
        Err(e) => Err(e),
    }
}

/// From thirteen han on the payments no longer depend on the han.
pub proof fn lemma_payments_top_tier(han: nat, other: nat, fu: nat, honba: nat)
    requires
        han >= 13,
        other >= 13,
    ensures
        payments(han, fu, honba) == payments(other, fu, honba),
{
}

/// The circumstances that the hand-scoring mode knows: whether the hand
/// was won by self-draw, and whether riichi was declared.
pub open spec fn scoring_conditions(tsumo: bool, riichi: bool) -> WinConditions {
    WinConditions {
        tsumo,
        riichi,
        double_riichi: false,
        ippatsu: false,
        haitei: false,
        chankan: false,
        rinshan: false,
    }
}

/// The payments of an assembled hand: none without a yaku; else those of
/// its yaku han with the dora added, and of its minipoints.
pub open spec fn hand_payments(h: HandView, dora: nat, tsumo: bool, honba: nat) -> Result<
    Seq<nat>,
    HandErr,
> {
    if h.yaku_han() == 0 {
        Err(HandErr::NoYaku)
    } else {
        Ok(payments(h.yaku_han() + dora, h.fu_total(tsumo), honba))
    }
}

/// The payments of the hand that the given notations make, or the reason
/// for which there are none.
pub open spec fn hand_score(
    tiles: Seq<Seq<char>>,
    win: Seq<char>,
    dora: nat,
    seat: Seq<char>,
    prev: Seq<char>,
    tsumo: bool,
    riichi: bool,
    honba: nat,
) -> Result<Seq<nat>, HandErr> {
    match assemble(tiles, win, seat, prev, scoring_conditions(tsumo, riichi)) {
        Ok(h) => hand_payments(h, dora, tsumo, honba),
        Err(e) => Err(e),
    }
}

/// Score a hand from the notations of its groups, of the winning tile and
/// of the winds, with the han from dora, the way of winning, whether
/// riichi was declared, and the honba counter.
pub fn get_hand_score(
    tiles: &[String],
    win: &str,
    dora: u16,
    seat: &str,
    prev: &str,
    tsumo: bool,
    riichi: bool,
    honba: u16,
) -> (r: Result<Vec<u32>, HandErr>)
    ensures
        match hand_score(
            tiles.deep_view(),
            win@,
            dora as nat,
            seat@,
            prev@,
            tsumo,
            riichi,
            honba as nat,
        ) {
            Ok(p) => r is Ok && vec_payments(r->Ok_0@) == p,
            Err(e) => r is Err && r->Err_0 == e,
        },
        r is Ok ==> r->Ok_0@.len() == 5,
{
    let conditions = WinConditions {
        tsumo,
        riichi,
        double_riichi: false,
        ippatsu: false,
        haitei: false,
        chankan: false,
        rinshan: false,
    };
    let hand = match Hand::with_conditions(tiles, win, seat, prev, conditions) {
        Ok(hand) => hand,
        Err(e) => {
            return Err(e);
        },
    };
    let yaku_han = hand.yaku_han();
    if yaku_han == 0 {
        return Err(HandErr::NoYaku);
    }
    let fu = hand.calculate_fu(tsumo).0;
    let sum: u32 = yaku_han as u32 + dora as u32;
    let han: u16 = if sum > 65535 {
        65535
    } else {
        sum as u16
    };
    proof {
        if sum > 65535 {
            lemma_payments_top_tier(han as nat, sum as nat, fu as nat, honba as nat);
        }
    }
    let args: [u16; 2] = [han, fu];
    match calculate(args.as_slice(), honba) {
        Ok(out) => Ok(out),
        Err(CalculatorErrors::NoHan) => Err(HandErr::NoHan),
        Err(CalculatorErrors::NoFu) => Err(HandErr::NoFu),
    }
}

} // verus!
