//! The two players' scores and their display text `"<left> : <right>"`.
use vstd::prelude::*;

verus! {

/// The score of each player.
#[derive(Clone, Copy, Debug, PartialEq, Eq, Structural)]
pub struct Scoreboard {
    pub left_player_score: usize,
    pub right_player_score: usize,
}

/// The decimal digit character for `d`, which is below ten.
pub open spec fn digit_char(d: nat) -> char {
    if d == 0 {
        '0'
    } else if d == 1 {
        '1'
    } else if d == 2 {
        '2'
    } else if d == 3 {
        '3'
    } else if d == 4 {
        '4'
    } else if d == 5 {
        '5'
    } else if d == 6 {
        '6'
    } else if d == 7 {
        '7'
    } else if d == 8 {
        '8'
    } else {
        '9'
    }
}

pub open spec fn is_digit(c: char) -> bool {
    '0' <= c <= '9'
}

/// The value of a decimal digit character.
pub open spec fn digit_value(c: char) -> nat {
    (c as u32 - '0' as u32) as nat
}

/// `n` written in decimal, without leading zeros.
pub open spec fn decimal(n: nat) -> Seq<char>
    decreases n,
{
    if n < 10 {
        seq![digit_char(n)]
    } else {
        decimal(n / 10).push(digit_char(n % 10))
    }
}

/// The text between the two scores.
pub open spec fn separator() -> Seq<char> {
    seq![' ', ':', ' ']
}

/// The display text of a pair of scores.
pub open spec fn score_text(left: nat, right: nat) -> Seq<char> {
    decimal(left) + separator() + decimal(right)
}

/// The number that a sequence of decimal digits spells.
pub open spec fn value_of(s: Seq<char>) -> nat
    decreases s.len(),
{
    if s.len() == 0 {
        0
    } else {
        value_of(s.drop_last()) * 10 + digit_value(s.last())
    }
}

pub open spec fn all_digits(s: Seq<char>) -> bool {
    forall|i: int| 0 <= i < s.len() ==> is_digit(#[trigger] s[i])
}

/// The number of decimal digits that `s` starts with.
pub open spec fn digit_run(s: Seq<char>) -> nat
    decreases s.len(),
{
    if s.len() > 0 && is_digit(s[0]) {
        1 + digit_run(s.drop_first())
    } else {
        0
    }
}

/// The pair of numbers that a display text holds: one or more digits, the
/// separator, then one or more digits and nothing else. `None` for any
/// other text.
pub open spec fn parsed_scores(s: Seq<char>) -> Option<(nat, nat)> {
    let k = digit_run(s) as int;
    if k > 0 && s.len() >= k + 4 && s.subrange(k, k + 3) == separator() && all_digits(
        s.subrange(k + 3, s.len() as int),
    ) {
        Some((value_of(s.subrange(0, k)), value_of(s.subrange(k + 3, s.len() as int))))
    } else {
        None
    }
}

fn digit_str(d: usize) -> (r: &'static str)
    requires
        d < 10,
    ensures
        r@ == seq![digit_char(d as nat)],
{
    proof {
        reveal_strlit("0");
        reveal_strlit("1");
        reveal_strlit("2");
        reveal_strlit("3");
        reveal_strlit("4");
        reveal_strlit("5");
        reveal_strlit("6");
        reveal_strlit("7");
        reveal_strlit("8");
        reveal_strlit("9");
    }
    if d == 0 {
        "0"
    } else if d == 1 {
        "1"
    } else if d == 2 {
        "2"
    } else if d == 3 {
        "3"
    } else if d == 4 {
        "4"
    } else if d == 5 {
        "5"
    } else if d == 6 {
        "6"
    } else if d == 7 {
        "7"
    } else if d == 8 {
        "8"
    } else {
        "9"
    }
}

/// Appends `n` in decimal to `s`.
pub fn append_decimal(s: &mut String, n: usize)
    ensures
        final(s)@ == old(s)@ + decimal(n as nat),
    decreases n,
{
    if n >= 10 {
        append_decimal(s, n / 10);
    }
    s.append(digit_str(n % 10));
}


/// A longer run of digits never spells a smaller number.
pub proof fn lemma_value_grows(s: Seq<char>, i: int)
    requires
        0 <= i <= s.len(),
    ensures
        value_of(s.subrange(0, i)) <= value_of(s),
    decreases s.len() - i,
{
    if i < s.len() {
        lemma_value_grows(s, i + 1);
        assert(s.subrange(0, i + 1).drop_last() == s.subrange(0, i));
    } else {
        assert(s.subrange(0, i) == s);
    }
}

/// `digit_run` is the position of the first character that is not a digit.
pub proof fn lemma_digit_run(s: Seq<char>, k: int)
    requires
        0 <= k <= s.len(),
        forall|j: int| 0 <= j < k ==> is_digit(#[trigger] s[j]),
        k == s.len() || !is_digit(s[k]),
    ensures
        digit_run(s) == k,
    decreases k,
{
    if k > 0 {
        assert forall|j: int| 0 <= j < k - 1 implies is_digit(#[trigger] s.drop_first()[j]) by {
            assert(s.drop_first()[j] == s[j + 1]);
        }
        lemma_digit_run(s.drop_first(), k - 1);
    }
}

/// The digit character of `d` is a digit of value `d`.
pub proof fn lemma_digit_char(d: nat)
    requires
        d < 10,
    ensures
        is_digit(digit_char(d)),
        digit_value(digit_char(d)) == d,
{
}

/// A number written in decimal is a nonempty run of digits that spells the
/// number back.
pub proof fn lemma_decimal(n: nat)
    ensures
        decimal(n).len() >= 1,
        all_digits(decimal(n)),
        value_of(decimal(n)) == n,
    decreases n,
{
    lemma_digit_char(n % 10);
    if n < 10 {
        assert(n % 10 == n);
        assert(decimal(n).drop_last() == Seq::<char>::empty());
        assert(value_of(Seq::<char>::empty()) == 0);
        assert(decimal(n).last() == digit_char(n));
    } else {
        lemma_decimal(n / 10);
        let d = decimal(n);
        assert(d.drop_last() == decimal(n / 10));
        assert forall|i: int| 0 <= i < d.len() implies is_digit(#[trigger] d[i]) by {
            if i < d.len() - 1 {
                assert(d[i] == decimal(n / 10)[i]);
            }
        }
        assert(d.last() == digit_char(n % 10));
        assert(value_of(d) == value_of(decimal(n / 10)) * 10 + n % 10);
        assert(n / 10 * 10 + n % 10 == n);
    }
}

/// Reading back the display text of a pair of scores gives the same pair.
pub proof fn lemma_text_round_trip(left: nat, right: nat)
    ensures
        parsed_scores(score_text(left, right)) == Some((left, right)),
{
    let a = decimal(left);
    let b = decimal(right);
    let s = score_text(left, right);
    lemma_decimal(left);
    lemma_decimal(right);
    let k = a.len() as int;
    assert forall|j: int| 0 <= j < k implies is_digit(#[trigger] s[j]) by {
        assert(s[j] == a[j]);
    }
    assert(s[k] == ' ');
    lemma_digit_run(s, k);
    assert(s.subrange(0, k) == a);
    assert(s.subrange(k, k + 3) == separator());
    assert(s.subrange(k + 3, s.len() as int) == b);
}

fn is_digit_char(c: char) -> (r: bool)
    ensures
        r == is_digit(c),
{
    '0' <= c && c <= '9'
}

/// The number spelled by the digits `s@[from..to]`, or `None` when it does
/// not fit in `usize`.
fn number_in(s: &str, from: usize, to: usize) -> (r: Option<usize>)
    requires
        from <= to <= s@.len(),
        all_digits(s@.subrange(from as int, to as int)),
    ensures
        value_of(s@.subrange(from as int, to as int)) <= usize::MAX ==> r == Some(
            value_of(s@.subrange(from as int, to as int)) as usize,
        ),
        value_of(s@.subrange(from as int, to as int)) > usize::MAX ==> r is None,
{
    let ghost digits = s@.subrange(from as int, to as int);
    let mut acc: usize = 0;
    let mut i: usize = from;
    while i < to
        invariant
            from <= i <= to <= s@.len(),
            digits == s@.subrange(from as int, to as int),
            all_digits(digits),
            acc == value_of(digits.subrange(0, i - from)),
        decreases to - i,
    {
        let c = s.get_char(i);
        assert(c == digits[i - from]);
        let d = (c as u32 - '0' as u32) as usize;
        assert(digits.subrange(0, i + 1 - from).drop_last() == digits.subrange(0, i - from));
        if acc > (usize::MAX - d) / 10 {
            proof {
                lemma_value_grows(digits, i + 1 - from);
            }
            return None;
        }
        acc = acc * 10 + d;
        i = i + 1;
    }
    assert(digits.subrange(0, to - from) == digits);
    Some(acc)
}

impl Scoreboard {
    /// A board with no points scored.
    pub fn new() -> (r: Scoreboard)
        ensures
            r.left_player_score == 0,
            r.right_player_score == 0,
    {
        Scoreboard { left_player_score: 0, right_player_score: 0 }
    }

    /// The display text `"<left> : <right>"`.
    pub fn text(&self) -> (r: String)
        ensures
            r@ == score_text(self.left_player_score as nat, self.right_player_score as nat),
    {
        let mut r = String::new();
        append_decimal(&mut r, self.left_player_score);
        proof {
            reveal_strlit(" : ");
        }
        r.append(" : ");
        append_decimal(&mut r, self.right_player_score);
        r
    }

    /// Reads a display text back into a board. `None` when the text is not
    /// of the form that `text` writes, or a score does not fit in `usize`;
    /// leading zeros are accepted.
    pub fn parse(s: &str) -> (r: Option<Scoreboard>)
        ensures
            match parsed_scores(s@) {
                Some((left, right)) => if left <= usize::MAX && right <= usize::MAX {
                    r == Some(
                        Scoreboard {
                            left_player_score: left as usize,
                            right_player_score: right as usize,
                        },
                    )
                } else {
                    r is None
                },
                None => r is None,
            },
    {
        let len = s.unicode_len();
        let mut k: usize = 0;
        while k < len && is_digit_char(s.get_char(k))
            invariant
                k <= len == s@.len(),
                forall|j: int| 0 <= j < k ==> is_digit(#[trigger] s@[j]),
            decreases len - k,
        {
            k = k + 1;
        }
        proof {
            lemma_digit_run(s@, k as int);
        }
        if k == 0 || len - k < 4 {
            return None;
        }
        if !(s.get_char(k) == ' ' && s.get_char(k + 1) == ':' && s.get_char(k + 2) == ' ') {
            assert(s@.subrange(k as int, k + 3)[0] == s@[k as int]);
            assert(s@.subrange(k as int, k + 3)[1] == s@[k + 1]);
            assert(s@.subrange(k as int, k + 3)[2] == s@[k + 2]);
            return None;
        }
        assert(s@.subrange(k as int, k + 3) == separator());
        let mut i: usize = k + 3;
        while i < len
            invariant
                k + 3 <= i <= len == s@.len(),
                k > 0,
                len - k >= 4,
                digit_run(s@) == k,
                s@.subrange(k as int, k + 3) == separator(),
                forall|j: int| k + 3 <= j < i ==> is_digit(#[trigger] s@[j]),
            decreases len - i,
        {
            if !is_digit_char(s.get_char(i)) {
                let ghost rest = s@.subrange(k + 3, len as int);
                assert(rest[i - (k + 3)] == s@[i as int]);
                assert(!is_digit(rest[i - (k + 3)]));
                assert(!all_digits(rest));
                return None;
            }
            i = i + 1;
        }
        assert forall|j: int| 0 <= j < len - k - 3 implies is_digit(
            #[trigger] s@.subrange(k + 3, len as int)[j],
        ) by {
            assert(s@.subrange(k + 3, len as int)[j] == s@[k + 3 + j]);
        }
        assert forall|j: int| 0 <= j < k implies is_digit(#[trigger] s@.subrange(0, k as int)[j]) by {
            assert(s@.subrange(0, k as int)[j] == s@[j]);
        }
        let left = number_in(s, 0, k);
        let right = number_in(s, k + 3, len);
        match (left, right) {
            (Some(l), Some(r)) => Some(Scoreboard { left_player_score: l, right_player_score: r }),
            _ => None,
        }
    }
}

} // verus!
