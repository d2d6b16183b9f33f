//! Exact decimal numbers as the device writes them (`14.0`, `-3.5`, `20`).

use vstd::prelude::*;

verus! {

/// A decimal number held exactly: `(-1)^negative * digits / 10^scale`,
/// where `digits` are the decimal digits of the text with the point removed.
#[derive(Clone, Debug)]
pub struct Decimal {
    pub negative: bool,
    pub digits: Vec<u8>,
    pub scale: usize,
}

/// Sign, digits and number of fraction digits of a decimal.
pub type DecimalModel = (bool, Seq<u8>, nat);

impl Decimal {
    /// Every digit is below ten, at least one digit stands, and the fraction
    /// digits are among them.
    pub open spec fn wf(&self) -> bool {
        &&& self.digits@.len() > 0
        &&& self.scale <= self.digits@.len()
        &&& forall|i: int| 0 <= i < self.digits@.len() ==> #[trigger] self.digits@[i] < 10
    }
}

impl View for Decimal {
    type V = DecimalModel;

    open spec fn view(&self) -> DecimalModel {
        (self.negative, self.digits@, self.scale as nat)
    }
}

pub open spec fn is_digit(c: char) -> bool {
    '0' <= c && c <= '9'
}

pub open spec fn digit_of(c: char) -> u8 {
    (c as u32 - '0' as u32) as u8
}

/// Reads an unsigned decimal text from the left: the digits seen (point
/// removed), how many of them follow the point, and whether a point was seen.
/// `None` when a character other than a digit or a single point occurs.
pub open spec fn scan_unsigned(b: Seq<char>) -> Option<(Seq<u8>, nat, bool)>
    decreases b.len(),
{
    if b.len() == 0 {
        Some((Seq::<u8>::empty(), 0nat, false))
    } else {
        match scan_unsigned(b.drop_last()) {
            None => None,
            Some(st) => {
                let c = b.last();
                if is_digit(c) {
                    Some((st.0.push(digit_of(c)), if st.2 { st.1 + 1 } else { st.1 }, st.2))
                } else if c == '.' && !st.2 {
                    Some((st.0, st.1, true))
                } else {
                    None
                }
            },
        }
    }
}

pub open spec fn has_sign(s: Seq<char>) -> bool {
    s.len() > 0 && (s[0] == '-' || s[0] == '+')
}

/// The text after an optional leading sign.
pub open spec fn unsigned_part(s: Seq<char>) -> Seq<char> {
    if has_sign(s) {
        s.drop_first()
    } else {
        s
    }
}

/// The decimal that a text denotes: an optional sign, then digits with at
/// most one point among them, and at least one digit.
pub open spec fn decimal_of(s: Seq<char>) -> Option<DecimalModel> {
    match scan_unsigned(unsigned_part(s)) {
        None => None,
        Some(st) => if st.0.len() > 0 {
            Some((has_sign(s) && s[0] == '-', st.0, st.1))
        } else {
            None
        },
    }
}

proof fn lemma_scan_none_extends(b: Seq<char>, i: int)
    requires
        0 <= i <= b.len(),
        scan_unsigned(b.take(i)) is None,
    ensures
        scan_unsigned(b) is None,
    decreases b.len(),
{
    if b.len() > i {
        assert(b.drop_last().take(i) =~= b.take(i));
        lemma_scan_none_extends(b.drop_last(), i);
    } else {
        assert(b.take(i) =~= b);
    }
}

/// Parses a decimal text exactly; `None` where the text is no decimal.
pub fn parse_decimal(s: &str) -> (r: Option<Decimal>)
    ensures
        match decimal_of(s@) {
            Some(m) => r matches Some(d) && d@ == m,
            None => r is None,
        },
        r matches Some(d) ==> d.wf(),
{
    let n = s.unicode_len();
    let mut start: usize = 0;
    let mut negative = false;
    if n > 0 {
        let c0 = s.get_char(0);
        if c0 == '-' || c0 == '+' {
            start = 1;
            negative = c0 == '-';
        }
    }
    let ghost u = unsigned_part(s@);
    assert(u =~= s@.subrange(start as int, n as int));
    let mut digits: Vec<u8> = Vec::new();
    let mut scale: usize = 0;
    let mut seen_point = false;
    let mut i: usize = start;
    while i < n
        invariant
            start <= i <= n,
            n == s@.len(),
            u == s@.subrange(start as int, n as int),
            u == unsigned_part(s@),
            negative == (has_sign(s@) && s@[0] == '-'),
            scale <= digits@.len(),
            digits@.len() <= i - start,
            forall|j: int| 0 <= j < digits@.len() ==> #[trigger] digits@[j] < 10,
            scan_unsigned(u.take(i - start)) == Some((digits@, scale as nat, seen_point)),
        decreases n - i,
    {
        let c = s.get_char(i);
        let ghost k = i - start;
        assert(u.take(k + 1).drop_last() =~= u.take(k));
        assert(u.take(k + 1).last() == c);
        if '0' <= c && c <= '9' {
            digits.push(((c as u32) - ('0' as u32)) as u8);
            if seen_point {
                scale = scale + 1;
            }
        } else if c == '.' && !seen_point {
            seen_point = true;
        } else {
            proof {
                assert(scan_unsigned(u.take(k + 1)) is None);
                lemma_scan_none_extends(u, k + 1);
            }
            return None;
        }
        i = i + 1;
    }
    assert(u.take(n - start) =~= u);
    if digits.len() == 0 {
        return None;
    }
    Some(Decimal { negative, digits, scale })
}

} // verus!
