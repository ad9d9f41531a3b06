use vstd::prelude::*;
use crate::color::{widen8, Channel};
use crate::editor::Message;
use vstd::string::StrSliceExecFns;

verus! {

/// `c` is an ASCII decimal digit.
pub open spec fn is_ascii_digit_spec(c: char) -> bool {
    48 <= c as u32 && c as u32 <= 57
}

/// Every character of `s` is an ASCII decimal digit.
pub open spec fn all_digits(s: Seq<char>) -> bool {
    forall|i: int| 0 <= i < s.len() ==> #[trigger] is_ascii_digit_spec(s[i])
}

/// The digit part of a numeral: everything after one optional leading `+`.
pub open spec fn numeral_digits(s: Seq<char>) -> Seq<char> {
    if s.len() > 0 && s[0] == '+' {
        s.drop_first()
    } else {
        s
    }
}

/// The value of a string of decimal digits.
pub open spec fn numeral_value(s: Seq<char>) -> int
    decreases s.len(),
{
    if s.len() == 0 {
        0
    } else {
        numeral_value(s.drop_last()) * 10 + (s.last() as u32 - 48)
    }
}

/// The 8-bit intensity the text denotes, exactly as unsigned 8-bit parsing
/// accepts it: an optional leading `+`, then one or more decimal digits,
/// denoting a value of at most 255. Anything else is malformed.
pub open spec fn u8_numeral_spec(s: Seq<char>) -> Option<u8> {
    let d = numeral_digits(s);
    if d.len() > 0 && all_digits(d) && numeral_value(d) <= 255 {
        Some(numeral_value(d) as u8)
    } else {
        None
    }
}

/// Empty input counts as the numeral zero before parsing.
pub open spec fn effective_text(s: Seq<char>) -> Seq<char> {
    if s.len() == 0 {
        seq!['0']
    } else {
        s
    }
}

proof fn lemma_numeral_value_nonneg(d: Seq<char>)
    requires
        all_digits(d),
    ensures
        numeral_value(d) >= 0,
    decreases d.len(),
{
    if d.len() > 0 {
        assert(is_ascii_digit_spec(d.last()));
        assert(all_digits(d.drop_last())) by {
            assert forall|i: int| 0 <= i < d.len() - 1 implies #[trigger] is_ascii_digit_spec(
                d.drop_last()[i],
            ) by {
                assert(d.drop_last()[i] == d[i]);
            }
        }
        lemma_numeral_value_nonneg(d.drop_last());
    }
}

/// A digit string is worth at least any of its prefixes: once a prefix
/// exceeds a bound, the whole numeral does.
proof fn lemma_numeral_prefix_le(d: Seq<char>, k: int)
    requires
        all_digits(d),
        0 <= k <= d.len(),
    ensures
        numeral_value(d.take(k)) <= numeral_value(d),
    decreases d.len(),
{
    if k == d.len() {
        assert(d.take(k) =~= d);
    } else {
        assert(all_digits(d.drop_last())) by {
            assert forall|i: int| 0 <= i < d.len() - 1 implies #[trigger] is_ascii_digit_spec(
                d.drop_last()[i],
            ) by {
                assert(d.drop_last()[i] == d[i]);
            }
        }
        assert(d.take(k) =~= d.drop_last().take(k));
        lemma_numeral_prefix_le(d.drop_last(), k);
        lemma_numeral_value_nonneg(d.drop_last());
        assert(is_ascii_digit_spec(d.last()));
    }
}

/// Parses the text as an 8-bit intensity; `None` on malformed text.
pub fn parse_u8_numeral(s: &str) -> (r: Option<u8>)
    ensures
        r == u8_numeral_spec(s@),
{
    let n = s.unicode_len();
    let start: usize = if n > 0 && s.get_char(0) == '+' {
        1
    } else {
        0
    };
    let ghost d = numeral_digits(s@);
    proof {
        assert(d =~= s@.subrange(start as int, n as int));
    }
    if start == n {
        return None;
    }
    let mut acc: u32 = 0;
    let mut i: usize = start;
    while i < n
        invariant
            start <= i <= n,
            n == s@.len(),
            d == numeral_digits(s@),
            d =~= s@.subrange(start as int, n as int),
            all_digits(d.take(i - start)),
            acc == numeral_value(d.take(i - start)),
            acc <= 255,
        decreases n - i,
    {
        let c = s.get_char(i);
        let v = c as u32;
        if v < 48 || v > 57 {
            proof {
                assert(d[i - start] == s@[i as int]);
                assert(!is_ascii_digit_spec(d[i - start]));
            }
            return None;
        }
        proof {
            let p = d.take(i - start);
            assert(p.push(c) =~= d.take(i - start + 1));
            assert(p.push(c).drop_last() =~= p);
            assert(numeral_value(p.push(c)) == numeral_value(p) * 10 + (c as u32 - 48));
            assert forall|q: int| 0 <= q < i - start + 1 implies #[trigger] is_ascii_digit_spec(
                d.take(i - start + 1)[q],
            ) by {
                if q < i - start {
                    assert(d.take(i - start + 1)[q] == d.take(i - start)[q]);
                } else {
                    assert(d.take(i - start + 1)[q] == c);
                }
            }
        }
        acc = acc * 10 + (v - 48);
        i += 1;
        if acc > 255 {
            proof {
                if all_digits(d) {
                    lemma_numeral_prefix_le(d, i - start);
                }
            }
            return None;
        }
    }
    proof {
        assert(d.take(n - start) =~= d);
    }
    Some(acc as u8)
}

/// The command denoted by a raw channel value for channel `ch`.
pub open spec fn adjust_message_spec(ch: Channel, v: i64) -> Message {
    match ch {
        Channel::Red => Message::AdjustRed(v),
        Channel::Green => Message::AdjustGreen(v),
        Channel::Blue => Message::AdjustBlue(v),
        Channel::Alpha => Message::AdjustAlpha(v),
    }
}

/// The command denoted by channel text typed as an 8-bit integer: the
/// parsed intensity converted to exact channel units, or the distinguished
/// ignore command on malformed text. Empty input counts as the numeral zero.
pub open spec fn rgba8_text_message_spec(ch: Channel, s: Seq<char>) -> Message {
    match u8_numeral_spec(effective_text(s)) {
        Some(k) => adjust_message_spec(ch, widen8(k) as i64),
        None => Message::Ignore,
    }
}

/// Builds the command for a channel edit typed as 8-bit integer text.
pub fn adjust_from_rgba8_text(ch: Channel, input: &str) -> (m: Message)
    ensures
        m == rgba8_text_message_spec(ch, input@),
{
    let parsed: Option<u8> = if input.unicode_len() == 0 {
        proof {
            lemma_zero_numeral();
        }
        Some(0u8)
    } else {
        parse_u8_numeral(input)
    };
    match parsed {
        Some(k) => {
            let v: i64 = (k as i64) * 257;
            match ch {
                Channel::Red => Message::AdjustRed(v),
                Channel::Green => Message::AdjustGreen(v),
                Channel::Blue => Message::AdjustBlue(v),
                Channel::Alpha => Message::AdjustAlpha(v),
            }
        },
        None => Message::Ignore,
    }
}

proof fn lemma_zero_numeral()
    ensures
        u8_numeral_spec(seq!['0']) == Some(0u8),
{
    let d = numeral_digits(seq!['0']);
    assert(d =~= seq!['0']);
    assert(is_ascii_digit_spec('0'));
    assert(d.drop_last() =~= Seq::<char>::empty());
    assert(numeral_value(d.drop_last()) == 0);
    assert(d.last() == '0');
    assert(numeral_value(d) == numeral_value(d.drop_last()) * 10 + ('0' as u32 - 48));
}

} // verus!

