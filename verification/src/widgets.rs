//! Widgets that render themselves as a line of text.

use vstd::prelude::*;
use vstd::string::StringExecFns;

verus! {

/// The character of the decimal digit `d` (for `d < 10`).
pub open spec fn digit_char(d: nat) -> char {
    (48 + d) as char
}

/// The decimal digits of `n`, most significant first, with no leading zeros.
pub open spec fn decimal(n: nat) -> Seq<char>
    decreases n,
{
    if n < 10 {
        seq![digit_char(n)]
    } else {
        decimal(n / 10) + seq![digit_char(n % 10)]
    }
}

/// Whether `c` is one of the characters `'0'` to `'9'`.
pub open spec fn is_digit(c: char) -> bool {
    '0' <= c && c <= '9'
}

/// The number that the digit characters of `s` spell in base ten, read
/// from the most significant end (0 for the empty text).
pub open spec fn digits_value(s: Seq<char>) -> nat
    decreases s.len(),
{
    if s.len() == 0 {
        0
    } else {
        digits_value(s.drop_last()) * 10 + ((s.last() as int) - 48) as nat
    }
}

/// Whether `s` is the way numbers are written in decimal: at least one
/// digit, only digits, and no leading zero unless the number is 0 itself.
pub open spec fn is_decimal_text(s: Seq<char>) -> bool {
    &&& s.len() >= 1
    &&& forall|i: int| 0 <= i < s.len() ==> is_digit(#[trigger] s[i])
    &&& (s.len() == 1 || s[0] != '0')
}

/// `decimal(n)` is written as decimal numbers are, and reads back as `n`.
pub proof fn lemma_decimal_reads_back(n: nat)
    ensures
        is_decimal_text(decimal(n)),
        digits_value(decimal(n)) == n,
        n >= 10 ==> decimal(n).len() >= 2,
    decreases n,
{
    let c = digit_char(n % 10);
    assert((c as int) == 48 + n % 10);
    if n < 10 {
        assert(decimal(n) =~= seq![c]);
        assert(seq![c].drop_last() =~= Seq::<char>::empty());
        assert(digits_value(seq![c]) == digits_value(Seq::<char>::empty()) * 10 + ((c as int)
            - 48) as nat);
    } else {
        lemma_decimal_reads_back(n / 10);
        let d = decimal(n / 10);
        let s = d + seq![c];
        assert(decimal(n) =~= s);
        assert(s.drop_last() =~= d);
        assert(s.last() == c);
        assert(digits_value(s) == digits_value(d) * 10 + ((c as int) - 48) as nat);
        assert(d[0] != '0') by {
            if n / 10 < 10 {
                assert(d =~= seq![digit_char(n / 10)]);
                assert((digit_char(n / 10) as int) == 48 + n / 10);
            }
        }
        assert(s[0] == d[0]);
        assert forall|i: int| 0 <= i < s.len() implies is_digit(#[trigger] s[i]) by {
            if i < d.len() {
                assert(s[i] == d[i]);
            }
        }
    }
}

/// A button is drawn as the text `button id ` followed by its id written
/// out in full in decimal: the rest of the line reads back as the id.
pub proof fn lemma_button_line(id: u32)
    ensures
        button_line(id).len() > 10,
        button_line(id).take(10) =~= seq!['b', 'u', 't', 't', 'o', 'n', ' ', 'i', 'd', ' '],
        is_decimal_text(button_line(id).skip(10)),
        digits_value(button_line(id).skip(10)) == id,
{
    lemma_decimal_reads_back(id as nat);
    assert(button_line(id).skip(10) =~= decimal(id as nat));
}

/// A selection box is drawn as the text `select id ` followed by its id
/// written out in full in decimal: the rest of the line reads back as the
/// id.
pub proof fn lemma_select_line(id: u32)
    ensures
        select_line(id).len() > 10,
        select_line(id).take(10) =~= seq!['s', 'e', 'l', 'e', 'c', 't', ' ', 'i', 'd', ' '],
        is_decimal_text(select_line(id).skip(10)),
        digits_value(select_line(id).skip(10)) == id,
{
    lemma_decimal_reads_back(id as nat);
    assert(select_line(id).skip(10) =~= decimal(id as nat));
}

/// The decimal text of `n`.
///
/// Trusted: calls `ToString::to_string` on a `u32`, which goes through the
/// `Display` impl of `u32`, documented to write the number in decimal with
/// no sign, padding or leading zeros.
#[verifier::external_body]
fn decimal_string(n: u32) -> (s: String)
    ensures
        s@ == decimal(n as nat),
{
    n.to_string()
}

/// A widget that can be drawn as one line of text.
pub trait Draw {
    /// The line that shows the widget.
    fn draw(&self) -> String;
}

/// A button, known by its id.
pub struct Button {
    pub id: u32,
}

/// A selection box, known by its id.
pub struct Select {
    pub id: u32,
}

/// What a button with id `id` is drawn as: `button id <id>`.
pub open spec fn button_line(id: u32) -> Seq<char> {
    seq!['b', 'u', 't', 't', 'o', 'n', ' ', 'i', 'd', ' '] + decimal(id as nat)
}

/// What a selection box with id `id` is drawn as: `select id <id>`.
pub open spec fn select_line(id: u32) -> Seq<char> {
    seq!['s', 'e', 'l', 'e', 'c', 't', ' ', 'i', 'd', ' '] + decimal(id as nat)
}

impl Draw for Button {
    fn draw(&self) -> (s: String)
        ensures
            s@ == button_line(self.id),
            s@.take(10) =~= seq!['b', 'u', 't', 't', 'o', 'n', ' ', 'i', 'd', ' '],
            is_decimal_text(s@.skip(10)),
            digits_value(s@.skip(10)) == self.id,
    {
        proof {
            lemma_button_line(self.id);
        }
        let digits = decimal_string(self.id);
        proof {
            reveal_strlit("button id ");
        }
        String::from_str("button id ").concat(digits.as_str())
    }
}

impl Draw for Select {
    fn draw(&self) -> (s: String)
        ensures
            s@ == select_line(self.id),
            s@.take(10) =~= seq!['s', 'e', 'l', 'e', 'c', 't', ' ', 'i', 'd', ' '],
            is_decimal_text(s@.skip(10)),
            digits_value(s@.skip(10)) == self.id,
    {
        proof {
            lemma_select_line(self.id);
        }
        let digits = decimal_string(self.id);
        proof {
            reveal_strlit("select id ");
        }
        String::from_str("select id ").concat(digits.as_str())
    }
}

} // verus!
