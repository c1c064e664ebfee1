//! The closed set of reasons for which a hand is rejected.
use vstd::prelude::*;
use vstd::string::*;

verus! {

/// Why a hand, or one of its groups, could not be accepted.
#[derive(Debug, Clone, Copy, PartialEq, Eq, Structural)]
pub enum HandErr {
    InvalidGroup,
    InvalidSuit,
    InvalidShape,
    NoYaku,
    NoHandTiles,
    NoWinTile,
    DuplicateRiichi,
    IppatsuWithoutRiichi,
    DoubleRiichiHaiteiIppatsu,
    DoubleRiichiHaiteiChankan,
    ChankanTsumo,
    RinshanKanWithoutKan,
    RinshanWithoutTsumo,
    RinshanIppatsu,
    NoHan,
    NoFu,
}

impl HandErr {
    /// The text shown to a person for each error.
    pub open spec fn message(self) -> Seq<char> {
        match self {
            HandErr::InvalidGroup => "Invalid Group found"@,
            HandErr::InvalidSuit => "Invalid Suit found"@,
            HandErr::InvalidShape => "Invalid Hand Shape found"@,
            HandErr::NoYaku => "No Yaku"@,
            HandErr::NoHandTiles => "No Hand Tiles given"@,
            HandErr::NoWinTile => "No Win Tile given"@,
            HandErr::DuplicateRiichi => "Cant Riichi and Double Riichi Simultaneously"@,
            HandErr::IppatsuWithoutRiichi => "Cant Ippatsu without Riichi"@,
            HandErr::ChankanTsumo => "Cant Tsumo and Chankan"@,
            HandErr::RinshanKanWithoutKan => "Cant Rinshan without Kan"@,
            HandErr::RinshanWithoutTsumo => "Cant Rinshan without Tsumo"@,
            HandErr::RinshanIppatsu => "Cant Rinshan and Ippatsu"@,
            HandErr::DoubleRiichiHaiteiIppatsu => "Cant Double Riichi, Ippatsu and Haitei"@,
            HandErr::DoubleRiichiHaiteiChankan => "Cant Double Riichi, Ippatsu and Haitei"@,
            HandErr::NoHan => "No Han provided!"@,
            HandErr::NoFu => "No Fu provided!"@,
        }
    }

    /// Render the error for a person.
    pub fn to_string(&self) -> (s: String)
        ensures
            s@ == self.message(),
    {
        match self {
            HandErr::InvalidGroup => String::from_str("Invalid Group found"),
            HandErr::InvalidSuit => String::from_str("Invalid Suit found"),
            HandErr::InvalidShape => String::from_str("Invalid Hand Shape found"),
            HandErr::NoYaku => String::from_str("No Yaku"),
            HandErr::NoHandTiles => String::from_str("No Hand Tiles given"),
            HandErr::NoWinTile => String::from_str("No Win Tile given"),
            HandErr::DuplicateRiichi => String::from_str(
                "Cant Riichi and Double Riichi Simultaneously",
            ),
            HandErr::IppatsuWithoutRiichi => String::from_str("Cant Ippatsu without Riichi"),
            HandErr::ChankanTsumo => String::from_str("Cant Tsumo and Chankan"),
            HandErr::RinshanKanWithoutKan => String::from_str("Cant Rinshan without Kan"),
            HandErr::RinshanWithoutTsumo => String::from_str("Cant Rinshan without Tsumo"),
            HandErr::RinshanIppatsu => String::from_str("Cant Rinshan and Ippatsu"),
            HandErr::DoubleRiichiHaiteiIppatsu => String::from_str(
                "Cant Double Riichi, Ippatsu and Haitei",
            ),
            HandErr::DoubleRiichiHaiteiChankan => String::from_str(
                "Cant Double Riichi, Ippatsu and Haitei",
            ),
            HandErr::NoHan => String::from_str("No Han provided!"),
            HandErr::NoFu => String::from_str("No Fu provided!"),
        }
    }
}

} // verus!
