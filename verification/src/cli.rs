//! The two modes of the command: what each takes, and the text it answers.
use crate::calc::calculate;
use crate::calc::get_hand_score;
use crate::calc::hand_score;
use crate::calc::payments;
use crate::calc::vec_payments;
use crate::calc::CalculatorErrors;
use crate::decimal::decimal_string;
use crate::decimal::decimal_text;
use crate::error::HandErr;
use vstd::prelude::*;
use vstd::string::*;

verus! {

/// The arguments of the command.
#[derive(Debug)]
pub struct Args {
    /// Hand tiles, one notation a group.
    pub tiles: Option<Vec<String>>,
    /// Winning tile.
    pub win: Option<String>,
    /// Han from dora.
    pub dora: Option<u16>,
    /// Seat wind.
    pub seat: String,
    /// Prevalent wind.
    pub prev: String,
    /// Whether the hand was won by self-draw.
    pub tsumo: bool,
    /// Whether riichi was declared.
    pub riichi: bool,
    /// Honba count.
    pub ba: u16,
    /// Calculator mode: han and fu.
    pub manual: Option<Vec<u16>>,
}

/// The answer of the command for a list of five payments.
pub open spec fn payment_text(p: Seq<nat>) -> Seq<char> {
    "Dealer: "@ + decimal_text(p[0]) + " ("@ + decimal_text(p[1]) + ")\nnon-dealer: "@
        + decimal_text(p[2]) + " ("@ + decimal_text(p[3]) + "/"@ + decimal_text(p[4]) + ")"@
}

/// Write the answer of the command for five payments.
pub fn format_payments(p: &Vec<u32>) -> (s: String)
    requires
        p@.len() == 5,
    ensures
        s@ == payment_text(vec_payments(p@)),
{
    let mut s = String::from_str("Dealer: ");
    s.append(decimal_string(p[0]).as_str());
    s.append(" (");
    s.append(decimal_string(p[1]).as_str());
    s.append(")\nnon-dealer: ");
    s.append(decimal_string(p[2]).as_str());
    s.append(" (");
    s.append(decimal_string(p[3]).as_str());
    s.append("/");
    s.append(decimal_string(p[4]).as_str());
    s.append(")");
    s
}

/// What the calculator mode answers for han, fu and honba.
pub open spec fn calculator_answer(han: u16, fu: u16, honba: u16) -> Result<
    Seq<char>,
    CalculatorErrors,
> {
    if han == 0 {
        Err(CalculatorErrors::NoHan)
    } else if fu == 0 {
        Err(CalculatorErrors::NoFu)
    } else {
        Ok(payment_text(payments(han as nat, fu as nat, honba as nat)))
    }
}

/// The calculator mode: the payments for the han and fu given under
/// `manual`, with the honba counter, as text.
pub fn parse_calculator(args: &Args) -> (r: Result<String, CalculatorErrors>)
    requires
        args.manual is Some,
        args.manual->0@.len() >= 2,
    ensures
        match calculator_answer(args.manual->0@[0], args.manual->0@[1], args.ba) {
            Ok(text) => r is Ok && r->Ok_0@ == text,
            Err(e) => r is Err && r->Err_0 == e,
        },
{
    match &args.manual {
        Some(hanandfu) => match calculate(hanandfu.as_slice(), args.ba) {
            Ok(o) => Ok(format_payments(&o)),
            Err(e) => Err(e),
        },
        None => Err(CalculatorErrors::NoHan),
    }
}

/// What the hand-scoring mode answers. Without tiles or without a winning
/// tile there is no hand; dora that are not given count as none.
pub open spec fn hand_answer(args: Args) -> Result<Seq<char>, HandErr> {
    if args.tiles is None {
        Err(HandErr::NoHandTiles)
    } else if args.win is None {
        Err(HandErr::NoWinTile)
    } else {
        match hand_score(
            args.tiles->0.deep_view(),
            args.win->0@,
            args.dora.unwrap_or(0) as nat,
            args.seat@,
            args.prev@,
            args.tsumo,
            args.riichi,
            args.ba as nat,
        ) {
            Ok(p) => Ok(payment_text(p)),
            Err(e) => Err(e),
        }
    }
}

/// The hand-scoring mode: the payments for the hand given under `tiles`
/// and `win`, as text.
pub fn parse_hand(args: &Args) -> (r: Result<String, HandErr>)
    ensures
        match hand_answer(*args) {
            Ok(text) => r is Ok && r->Ok_0@ == text,
            Err(e) => r is Err && r->Err_0 == e,
        },
{
    let tiles = match &args.tiles {
        Some(tiles) => tiles,
        None => {
            return Err(HandErr::NoHandTiles);
        },
    };
    let win = match &args.win {
        Some(win) => win,
        None => {
            return Err(HandErr::NoWinTile);
        },
    };
    let dora: u16 = match args.dora {
        Some(dora) => dora,
        None => 0,
    };
    let texts = tiles.as_slice();
    match get_hand_score(
        texts,
        win.as_str(),
        dora,
        args.seat.as_str(),
        args.prev.as_str(),
        args.tsumo,
        args.riichi,
        args.ba,
    ) {
        Ok(o) => Ok(format_payments(&o)),
        Err(e) => Err(e),
    }
}

} // verus!
