//! Tile groups and the compact notation they are written in.
//!
//! A group is written as `<rank-run><suit>[o]`: one to four rank characters,
//! one suit letter, and a trailing `o` when the group was called (open).
use crate::decimal::all_digits;
use crate::decimal::decimal_value;
use crate::decimal::digit_value;
use crate::error::HandErr;
use vstd::prelude::*;
use vstd::string::*;

verus! {

/// The five suits. `Wind` and `Dragon` are the honor suits.
#[derive(Debug, Clone, Copy, PartialEq, Eq, Hash, Structural)]
pub enum Suit {
    Manzu,
    Pinzu,
    Souzu,
    Wind,
    Dragon,
}

/// The shape of a group. `Single` is a lone tile: it never is a member of a
/// complete hand, only the shape under which a single tile is read.
#[derive(Debug, Clone, Copy, PartialEq, Eq, Structural)]
pub enum GroupType {
    Sequence,
    Triplet,
    Kan,
    Pair,
    Single,
}

/// The characters that may stand in a rank run.
pub open spec fn is_rank_char(c: char) -> bool {
    is_number_rank(c) || is_wind_rank(c) || is_dragon_rank(c)
}

/// The numbered ranks `1` to `9`.
pub open spec fn is_number_rank(c: char) -> bool {
    c == '1' || c == '2' || c == '3' || c == '4' || c == '5' || c == '6' || c == '7' || c == '8'
        || c == '9'
}

/// The wind ranks: east, south, west, north.
pub open spec fn is_wind_rank(c: char) -> bool {
    c == 'E' || c == 'S' || c == 'W' || c == 'N'
}

/// The dragon ranks: red, green, white.
pub open spec fn is_dragon_rank(c: char) -> bool {
    c == 'r' || c == 'g' || c == 'w'
}

/// Ranks that count as terminal or honor: `1`, `9` and every honor rank.
pub open spec fn is_terminal_rank(c: char) -> bool {
    c == '1' || c == '9' || is_wind_rank(c) || is_dragon_rank(c)
}

/// The suit a suit letter stands for.
pub open spec fn suit_of_letter(c: char) -> Option<Suit> {
    if c == 'm' {
        Some(Suit::Manzu)
    } else if c == 'p' {
        Some(Suit::Pinzu)
    } else if c == 's' {
        Some(Suit::Souzu)
    } else if c == 'w' {
        Some(Suit::Wind)
    } else if c == 'd' {
        Some(Suit::Dragon)
    } else {
        None
    }
}

/// Whether a suit is one of the three numbered suits.
pub open spec fn is_number_suit(suit: Suit) -> bool {
    suit == Suit::Manzu || suit == Suit::Pinzu || suit == Suit::Souzu
}

/// Whether the notation ends in the marker of an open group.
pub open spec fn is_open_notation(s: Seq<char>) -> bool {
    s.len() > 0 && s.last() == 'o'
}

/// The number of characters before the suit letter. It is negative when
/// the notation has no room for a suit letter.
pub open spec fn rank_run_len(s: Seq<char>) -> int {
    if is_open_notation(s) {
        s.len() - 2
    } else {
        s.len() - 1
    }
}

/// The suit letter: the character before the open marker, or the last one.
pub open spec fn suit_letter(s: Seq<char>) -> Option<char> {
    if rank_run_len(s) >= 0 {
        Some(s[rank_run_len(s)])
    } else {
        None
    }
}

/// The rank run: every character before the suit letter.
pub open spec fn rank_run(s: Seq<char>) -> Seq<char> {
    if rank_run_len(s) >= 0 {
        s.take(rank_run_len(s))
    } else {
        Seq::empty()
    }
}

/// Every character of the run is a rank character.
pub open spec fn all_rank_chars(run: Seq<char>) -> bool {
    forall|i: int| 0 <= i < run.len() ==> is_rank_char(#[trigger] run[i])
}

/// Every character of the run is the same.
pub open spec fn all_same(run: Seq<char>) -> bool {
    forall|i: int| 0 <= i < run.len() ==> #[trigger] run[i] == run[0]
}

/// The seven numeric runs `123` to `789`.
pub open spec fn is_numeric_run(run: Seq<char>) -> bool {
    run.len() == 3 && {
        ||| run =~= seq!['1', '2', '3']
        ||| run =~= seq!['2', '3', '4']
        ||| run =~= seq!['3', '4', '5']
        ||| run =~= seq!['4', '5', '6']
        ||| run =~= seq!['5', '6', '7']
        ||| run =~= seq!['6', '7', '8']
        ||| run =~= seq!['7', '8', '9']
    }
}

/// Whether the suit letter of the notation names a numbered suit.
pub open spec fn has_number_suit(s: Seq<char>) -> bool {
    match suit_letter(s) {
        Some(c) => match suit_of_letter(c) {
            Some(suit) => is_number_suit(suit),
            None => false,
        },
        None => false,
    }
}

/// The shape that a group notation stands for, if any.
///
/// By the length of the rank run: one tile is a lone tile, two equal ranks
/// a pair, three equal ranks a triplet, one of the seven numeric runs in a
/// numbered suit a sequence, four equal ranks a kan.
pub open spec fn shape_of(s: Seq<char>) -> Option<GroupType> {
    let run = rank_run(s);
    if !all_rank_chars(run) {
        None
    } else if run.len() == 1 {
        Some(GroupType::Single)
    } else if run.len() == 2 && all_same(run) {
        Some(GroupType::Pair)
    } else if run.len() == 3 && all_same(run) {
        Some(GroupType::Triplet)
    } else if is_numeric_run(run) && has_number_suit(s) {
        Some(GroupType::Sequence)
    } else if run.len() == 4 && all_same(run) {
        Some(GroupType::Kan)
    } else {
        None
    }
}

/// The suit that a one-letter text names.
pub open spec fn suit_of_text(s: Seq<char>) -> Option<Suit> {
    if s.len() == 1 {
        suit_of_letter(s[0])
    } else {
        None
    }
}

/// What a tile group is: the mathematical value behind [`TileGroup`].
pub struct GroupView {
    /// The rank of the group's first tile.
    pub rank: char,
    pub suit: Suit,
    /// Whether the group was called from another player's discard.
    pub open: bool,
    pub shape: GroupType,
    /// Whether the group counts as terminal or honor by its rank.
    pub terminal: bool,
}

/// The terminal flag of a group: a sequence is terminal when it starts at
/// `1` or `7`, every other shape when its rank is `1`, `9` or an honor.
pub open spec fn terminal_flag(shape: GroupType, rank: char) -> bool {
    if shape == GroupType::Sequence {
        rank == '1' || rank == '7'
    } else {
        is_terminal_rank(rank)
    }
}

impl GroupView {
    /// The invariant of a group: its rank is a rank character, a sequence
    /// starts at `1` to `7` in a numbered suit, and the terminal flag is
    /// the one that shape and rank give.
    pub open spec fn valid(self) -> bool {
        &&& is_rank_char(self.rank)
        &&& self.terminal == terminal_flag(self.shape, self.rank)
        &&& self.shape == GroupType::Sequence ==> {
            &&& is_number_suit(self.suit)
            &&& is_number_rank(self.rank)
            &&& self.rank != '8'
            &&& self.rank != '9'
        }
    }

    /// Whether the group is of an honor suit.
    pub open spec fn is_honor(self) -> bool {
        self.suit == Suit::Wind || self.suit == Suit::Dragon
    }

    /// Whether two groups hold the same tiles: same shape, rank and suit.
    pub open spec fn same_tiles(self, other: GroupView) -> bool {
        self.shape == other.shape && self.rank == other.rank && self.suit == other.suit
    }
}

/// The group that a notation stands for, or the reason it stands for none.
///
/// The suit letter is looked up first: a notation without a suit letter, or
/// with one outside `m p s w d`, is an invalid suit whatever its rank run.
pub open spec fn parse_group(s: Seq<char>) -> Result<GroupView, HandErr> {
    match suit_letter(s) {
        None => Err(HandErr::InvalidSuit),
        Some(letter) => match suit_of_letter(letter) {
            None => Err(HandErr::InvalidSuit),
            Some(suit) => match shape_of(s) {
                None => Err(HandErr::InvalidGroup),
                Some(shape) => Ok(
                    GroupView {
                        rank: s[0],
                        suit,
                        open: is_open_notation(s),
                        shape,
                        terminal: terminal_flag(shape, s[0]),
                    },
                ),
            },
        },
    }
}

/// A well-formed group text: its rank run is a lone rank, two, three or
/// four equal ranks, or one of the seven numeric runs before the letter of
/// a numbered suit.
pub open spec fn is_group_text(s: Seq<char>) -> bool {
    let run = rank_run(s);
    &&& all_rank_chars(run)
    &&& {
        ||| 1 <= run.len() <= 4 && all_same(run)
        ||| is_numeric_run(run) && has_number_suit(s)
    }
}

/// Classification is total on well-formed group texts, and it is a
/// function of the text: equal texts have equal shapes.
pub proof fn lemma_shape_total_and_deterministic(s: Seq<char>, t: Seq<char>)
    requires
        is_group_text(s),
        t == s,
    ensures
        shape_of(s) is Some,
        shape_of(t) == shape_of(s),
{
}

/// A run of two equal ranks is a pair, and a run of four equal ranks is a
/// kan, whatever stands behind the run.
pub proof fn lemma_equal_run_shape(s: Seq<char>)
    requires
        all_rank_chars(rank_run(s)),
        all_same(rank_run(s)),
    ensures
        rank_run(s).len() == 2 ==> shape_of(s) == Some(GroupType::Pair),
        rank_run(s).len() == 4 ==> shape_of(s) == Some(GroupType::Kan),
{
    if rank_run(s).len() == 4 {
        assert(!is_numeric_run(rank_run(s)));
    }
}

/// Every group that a notation stands for meets the group invariant.
pub proof fn lemma_parsed_group_valid(s: Seq<char>)
    requires
        parse_group(s) is Ok,
    ensures
        parse_group(s)->Ok_0.valid(),
        parse_group(s)->Ok_0.rank == rank_run(s)[0],
        parse_group(s)->Ok_0.shape == shape_of(s)->0,
{
    let run = rank_run(s);
    assert(is_rank_char(run[0]));
    if shape_of(s) == Some(GroupType::Sequence) {
        assert(is_numeric_run(run));
    }
}

fn is_rank(c: char) -> (b: bool)
    ensures
        b == is_rank_char(c),
{
    c == '1' || c == '2' || c == '3' || c == '4' || c == '5' || c == '6' || c == '7' || c == '8'
        || c == '9' || c == 'E' || c == 'S' || c == 'W' || c == 'N' || c == 'r' || c == 'g' || c
        == 'w'
}

fn is_terminal_char(c: char) -> (b: bool)
    ensures
        b == is_terminal_rank(c),
{
    c == '1' || c == '9' || c == 'E' || c == 'S' || c == 'W' || c == 'N' || c == 'r' || c == 'g'
        || c == 'w'
}

fn suit_from_letter(c: char) -> (r: Option<Suit>)
    ensures
        r == suit_of_letter(c),
{
    if c == 'm' {
        Some(Suit::Manzu)
    } else if c == 'p' {
        Some(Suit::Pinzu)
    } else if c == 's' {
        Some(Suit::Souzu)
    } else if c == 'w' {
        Some(Suit::Wind)
    } else if c == 'd' {
        Some(Suit::Dragon)
    } else {
        None
    }
}

impl Suit {
    /// Parse the suit from a one-letter string: `m`, `p`, `s`, `w` or `d`.
    pub fn suit_from_string(suit: String) -> (r: Result<Suit, HandErr>)
        ensures
            r == match suit_of_text(suit@) {
                Some(s) => Ok::<Suit, HandErr>(s),
                None => Err::<Suit, HandErr>(HandErr::InvalidSuit),
            },
    {
        let text = suit.as_str();
        if text.unicode_len() != 1 {
            return Err(HandErr::InvalidSuit);
        }
        match suit_from_letter(text.get_char(0)) {
            Some(s) => Ok(s),
            None => Err(HandErr::InvalidSuit),
        }
    }
}

impl GroupType {
    /// Parse the group type from the group's notation.
    pub fn group_type_from_string(group: String) -> (r: Result<GroupType, HandErr>)
        ensures
            r == match shape_of(group@) {
                Some(shape) => Ok::<GroupType, HandErr>(shape),
                None => Err::<GroupType, HandErr>(HandErr::InvalidGroup),
            },
    {
        match shape_from_text(group.as_str()) {
            Some(shape) => Ok(shape),
            None => Err(HandErr::InvalidGroup),
        }
    }
}

/// Reads the shape of a group from its notation.
fn shape_from_text(text: &str) -> (r: Option<GroupType>)
    ensures
        r == shape_of(text@),
{
    let n = text.unicode_len();
    if n == 0 {
        return None;
    }
    let open = text.get_char(n - 1) == 'o';
    if open && n < 2 {
        return None;
    }
    let count: usize = if open {
        n - 2
    } else {
        n - 1
    };
    let ghost run = rank_run(text@);
    if count == 0 || count > 4 {
        return None;
    }
    let mut i: usize = 0;
    while i < count
        invariant
            i <= count < n,
            n == text@.len(),
            run == text@.take(count as int),
            run == rank_run(text@),
            forall|j: int| 0 <= j < i ==> is_rank_char(#[trigger] run[j]),
        decreases count - i,
    {
        if !is_rank(text.get_char(i)) {
            assert(!is_rank_char(run[i as int]));
            return None;
        }
        i = i + 1;
    }
    let first = text.get_char(0);
    if count == 1 {
        return Some(GroupType::Single);
    }
    let second = text.get_char(1);
    assert(second == run[1]);
    if count == 2 {
        if first == second {
            return Some(GroupType::Pair);
        } else {
            return None;
        }
    }
    let third = text.get_char(2);
    assert(third == run[2]);
    if count == 3 {
        if first == second && second == third {
            return Some(GroupType::Triplet);
        }
        let numbered = match suit_from_letter(text.get_char(count)) {
            Some(Suit::Manzu) | Some(Suit::Pinzu) | Some(Suit::Souzu) => true,
            _ => false,
        };
        let ascending = (first == '1' && second == '2' && third == '3') || (first == '2' && second
            == '3' && third == '4') || (first == '3' && second == '4' && third == '5') || (first
            == '4' && second == '5' && third == '6') || (first == '5' && second == '6' && third
            == '7') || (first == '6' && second == '7' && third == '8') || (first == '7' && second
            == '8' && third == '9');
        if ascending && numbered {
            return Some(GroupType::Sequence);
        } else {
            return None;
        }
    }
    let fourth = text.get_char(3);
    assert(fourth == run[3]);
    if first == second && second == third && third == fourth {
        Some(GroupType::Kan)
    } else {
        None
    }
}

/// A tile group as read from its notation.
#[derive(Debug, PartialEq)]
pub struct TileGroup {
    /// The rank of the group's first tile, as a one-character string.
    pub value: String,
    pub suit: Suit,
    pub isopen: bool,
    pub group_type: GroupType,
    pub isterminal: bool,
}

impl View for TileGroup {
    type V = GroupView;

    open spec fn view(&self) -> GroupView {
        GroupView {
            rank: self.value@[0],
            suit: self.suit,
            open: self.isopen,
            shape: self.group_type,
            terminal: self.isterminal,
        }
    }
}

impl Clone for TileGroup {
    fn clone(&self) -> (r: TileGroup)
        ensures
            r == *self,
    {
        TileGroup {
            value: self.value.clone(),
            suit: self.suit,
            isopen: self.isopen,
            group_type: self.group_type,
            isterminal: self.isterminal,
        }
    }
}

impl TileGroup {
    /// The invariant of a group: `value` is a single rank character and the
    /// fields meet [`GroupView::valid`].
    pub open spec fn wf(&self) -> bool {
        self.value@.len() == 1 && self@.valid()
    }

    /// Read a group from its notation.
    pub fn new(group: String) -> (r: Result<TileGroup, HandErr>)
        ensures
            match parse_group(group@) {
                Ok(v) => r is Ok && r->Ok_0.wf() && r->Ok_0@ == v,
                Err(e) => r is Err && r->Err_0 == e,
            },
    {
        Self::from_text(group.as_str())
    }

    /// Read a group from its notation, given as a string slice.
    pub fn from_text(text: &str) -> (r: Result<TileGroup, HandErr>)
        ensures
            match parse_group(text@) {
                Ok(v) => r is Ok && r->Ok_0.wf() && r->Ok_0@ == v,
                Err(e) => r is Err && r->Err_0 == e,
            },
    {
        let n = text.unicode_len();
        if n == 0 {
            return Err(HandErr::InvalidSuit);
        }
        let isopen = text.get_char(n - 1) == 'o';
        if isopen && n < 2 {
            return Err(HandErr::InvalidSuit);
        }
        let count: usize = if isopen {
            n - 2
        } else {
            n - 1
        };
        let suit = match suit_from_letter(text.get_char(count)) {
            Some(suit) => suit,
            None => {
                return Err(HandErr::InvalidSuit);
            },
        };
        let group_type = match shape_from_text(text) {
            Some(shape) => shape,
            None => {
                return Err(HandErr::InvalidGroup);
            },
        };
        proof {
            lemma_parsed_group_valid(text@);
        }
        let first = text.get_char(0);
        let value = String::from_str(text.substring_char(0, 1));
        let isterminal = if group_type == GroupType::Sequence {
            first == '1' || first == '7'
        } else {
            is_terminal_char(first)
        };
        Ok(TileGroup { value, suit, isopen, group_type, isterminal })
    }

    /// Check if the group is an honor.
    pub fn is_honor(&self) -> (b: bool)
        ensures
            b == self@.is_honor(),
    {
        self.suit == Suit::Wind || self.suit == Suit::Dragon
    }

    /// The rank character of a well-formed group.
    pub fn rank(&self) -> (c: char)
        requires
            self.wf(),
        ensures
            c == self@.rank,
    {
        self.value.as_str().get_char(0)
    }

    /// Parse the group value into an integer.
    ///
    /// On a well-formed group this is the number of a numbered rank, and
    /// an error on an honor rank.
    pub fn into_u8(&self) -> (r: Result<u8, core::num::ParseIntError>)
        ensures
            r is Ok <==> u8_of_text(self.value@) is Some,
            r is Ok ==> Some(r->Ok_0) == u8_of_text(self.value@),
            self.wf() ==> (r is Ok <==> is_number_rank(self@.rank)),
            self.wf() && r is Ok ==> digit_value(self@.rank) == Some(r->Ok_0 as nat),
    {
        proof {
            if self.wf() {
                lemma_u8_of_rank(self.value@);
            }
        }
        parse_u8(self.value.as_str())
    }
}

/// The `u8` that a text writes in decimal: an optional `+`, then at least
/// one digit and digits only, with a value of at most 255.
pub open spec fn u8_of_text(s: Seq<char>) -> Option<u8> {
    let digits = if s.len() > 0 && s[0] == '+' {
        s.skip(1)
    } else {
        s
    };
    if digits.len() > 0 && all_digits(digits) && decimal_value(digits) <= 255 {
        Some(decimal_value(digits) as u8)
    } else {
        None
    }
}

/// On a single rank character the text is a number exactly when the rank is
/// numbered, and the number is the rank's.
pub proof fn lemma_u8_of_rank(s: Seq<char>)
    requires
        s.len() == 1,
        is_rank_char(s[0]),
    ensures
        u8_of_text(s) is Some <==> is_number_rank(s[0]),
        is_number_rank(s[0]) ==> Some(u8_of_text(s)->0 as nat) == digit_value(s[0]),
{
    assert(decimal_value(s.drop_last()) == 0);
}

/// The error of `str::parse` on an integer type.
#[verifier::external_type_specification]
#[verifier::external_body]
pub struct ExParseIntError(core::num::ParseIntError);

/// `str::parse::<u8>`: succeeds on an optional `+` followed by one or more
/// decimal digits that write a number of at most 255, with that number; on
/// every other text it returns an error.
#[verifier::external_body]
fn parse_u8(text: &str) -> (r: Result<u8, core::num::ParseIntError>)
    ensures
        r is Ok <==> u8_of_text(text@) is Some,
        r is Ok ==> Some(r->Ok_0) == u8_of_text(text@),
{
    text.parse::<u8>()
}

} // verus!
