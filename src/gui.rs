use vstd::prelude::*;

verus! {

/// Colour tag attached to a log line or an entity glyph; the front end maps
/// each tag to a concrete console colour.
#[derive(Clone, Copy, Debug, PartialEq, Eq, Structural)]
pub enum Tint {
    White,
    Red,
    DarkRed,
    Orange,
    Yellow,
    Violet,
    LightGreen,
    LightYellow,
}

/// Append-only, ordered log of game messages.
pub struct Messages {
    pub entries: Vec<(String, Tint)>,
}

impl View for Messages {
    type V = Seq<(Seq<char>, Tint)>;

    open spec fn view(&self) -> Seq<(Seq<char>, Tint)> {
        self.entries@.map_values(|e: (String, Tint)| (e.0@, e.1))
    }
}

impl Messages {
    pub fn new() -> (r: Messages)
        ensures
            r@ == Seq::<(Seq<char>, Tint)>::empty(),
    {
        let r = Messages { entries: Vec::new() };
        assert(r@ =~= Seq::<(Seq<char>, Tint)>::empty());
        r
    }

    pub fn add(&mut self, message: String, color: Tint)
        ensures
            final(self)@ == old(self)@.push((message@, color)),
    {
        self.entries.push((message, color));
        assert(self@ =~= old(self)@.push((message@, color)));
    }
}

pub open spec fn digit_char(d: int) -> char {
    if d == 0 {
        '0'
    } else if d == 1 {
        '1'
    } else if d == 2 {
        '2'
    } else if d == 3 {
        '3'
    } else if d == 4 {
        '4'
    } else if d == 5 {
        '5'
    } else if d == 6 {
        '6'
    } else if d == 7 {
        '7'
    } else if d == 8 {
        '8'
    } else {
        '9'
    }
}

/// Decimal digits of a natural number, most significant first.
pub open spec fn nat_text(n: nat) -> Seq<char>
    decreases n,
{
    if n < 10 {
        seq![digit_char(n as int)]
    } else {
        nat_text(n / 10).push(digit_char(n as int % 10))
    }
}

/// Decimal text of an integer, with a leading minus sign when negative.
pub open spec fn int_text(n: int) -> Seq<char> {
    if n < 0 {
        seq!['-'] + nat_text((-n) as nat)
    } else {
        nat_text(n as nat)
    }
}

fn digit_str(d: u32) -> (r: &'static str)
    requires
        d < 10,
    ensures
        r@ == seq![digit_char(d as int)],
{
    proof {
        reveal_strlit("0");
        reveal_strlit("1");
        reveal_strlit("2");
        reveal_strlit("3");
        reveal_strlit("4");
        reveal_strlit("5");
        reveal_strlit("6");
        reveal_strlit("7");
        reveal_strlit("8");
        reveal_strlit("9");
    }
    if d == 0 {
        "0"
    } else if d == 1 {
        "1"
    } else if d == 2 {
        "2"
    } else if d == 3 {
        "3"
    } else if d == 4 {
        "4"
    } else if d == 5 {
        "5"
    } else if d == 6 {
        "6"
    } else if d == 7 {
        "7"
    } else if d == 8 {
        "8"
    } else {
        "9"
    }
}

fn push_nat_text(s: &mut String, n: u32)
    ensures
        final(s)@ == old(s)@ + nat_text(n as nat),
    decreases n,
{
    if n >= 10 {
        push_nat_text(s, n / 10);
    }
    s.append(digit_str(n % 10));
    assert(final(s)@ =~= old(s)@ + nat_text(n as nat));
}

/// Appends the decimal text of `n` to `s`.
pub fn push_int_text(s: &mut String, n: i32)
    ensures
        final(s)@ == old(s)@ + int_text(n as int),
{
    if n < 0 {
        proof {
            reveal_strlit("-");
        }
        s.append("-");
        let m: u32 = if n == i32::MIN {
            2147483648u32
        } else {
            (-n) as u32
        };
        push_nat_text(s, m);
        assert(final(s)@ =~= old(s)@ + int_text(n as int));
    } else {
        push_nat_text(s, n as u32);
    }
}

/// A string as its `Debug` impl writes it: in double quotes, with escapes.
pub uninterp spec fn debug_text(s: Seq<char>) -> Seq<char>;

/// Relies on std's `Debug` for `str`, reached through `format!("{:?}")`:
/// the text depends on the characters of `s` alone.
#[verifier::external_body]
pub(crate) fn debug_quoted(s: &str) -> (r: String)
    ensures
        r@ == debug_text(s@),
{
    format!("{:?}", s)
}

} // verus!
