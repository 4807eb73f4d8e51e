//! Interpretation of numerals found in a chat command.
//!
//! A Chinese numeral may be written with standard, archaic or informal
//! variant characters; `normalize_rep` collapses every variant to one
//! canonical representative per digit or magnitude word (with two-character
//! expansions for informal compounds such as a single character meaning
//! "two tens"), and the canonical string is then parsed as a large-number
//! Chinese numeral by an outside parser. An Arabic numeral slot is parsed
//! here directly, with the exact overflow behaviour of a base-10 scan.

use crate::text::{chars_of, string_of};
use vstd::prelude::*;

verus! {

/// Failure of Chinese-numeral parsing, mirroring the outside parser's cases.
#[derive(Clone, Copy, Debug, PartialEq, Eq, Structural)]
pub enum ZhNumError {
    /// The numeral string was empty.
    Empty,
    /// A character at this offset does not continue a valid numeral.
    Incorrect { char_index: usize },
    /// The value exceeds the widest supported integer.
    Overflow,
    /// The value falls below the widest supported integer.
    Underflow,
}

/// What the outside Chinese-numeral parser returns for a string, using the
/// conventional (non-financial) large-number reading. The result depends on
/// the characters alone.
pub uninterp spec fn zh_parse(s: Seq<char>) -> Result<i128, ZhNumError>;

/// Relies on `chinese_number::from_chinese_to_i128_high`: parses a Chinese
/// numeral with the high-magnitude count method; the result depends on the
/// characters alone.
#[verifier::external_body]
fn zh_parse_exec(s: &str) -> (r: Result<i128, ZhNumError>)
    ensures
        r == zh_parse(s@),
{
    match chinese_number::from_chinese_to_i128_high(s) {
        Ok(n) => Ok(n),
        Err(chinese_number::ChineseToNumberError::ChineseNumberEmpty) => Err(ZhNumError::Empty),
        Err(chinese_number::ChineseToNumberError::ChineseNumberIncorrect { char_index }) => Err(
            ZhNumError::Incorrect { char_index },
        ),
        Err(chinese_number::ChineseToNumberError::Overflow) => Err(ZhNumError::Overflow),
        Err(chinese_number::ChineseToNumberError::Underflow) => Err(ZhNumError::Underflow),
    }
}

/// The canonical replacement for one character: variant digit and magnitude
/// characters map to one representative each, informal compound characters
/// expand to two canonical characters, and everything else is kept as is.
pub open spec fn canon_char(c: char) -> Seq<char> {
    if c == '〇' {
        seq!['零']
    } else if c == '一' || c == '弌' {
        seq!['壹']
    } else if c == '二' || c == '貳' || c == '两' || c == '兩' || c == '弐' {
        seq!['贰']
    } else if c == '三' || c == '参' || c == '參' || c == '弎' {
        seq!['叁']
    } else if c == '亖' || c == '四' {
        seq!['肆']
    } else if c == '五' {
        seq!['伍']
    } else if c == '六' || c == '陸' {
        seq!['陆']
    } else if c == '七' {
        seq!['柒']
    } else if c == '八' {
        seq!['捌']
    } else if c == '九' {
        seq!['玖']
    } else if c == '十' || c == '什' {
        seq!['拾']
    } else if c == '百' || c == '陌' {
        seq!['佰']
    } else if c == '千' || c == '阡' {
        seq!['仟']
    } else if c == '萬' {
        seq!['万']
    } else if c == '億' {
        seq!['亿']
    } else if c == '壤' {
        seq!['穰']
    } else if c == '溝' {
        seq!['沟']
    } else if c == '澗' {
        seq!['涧']
    } else if c == '載' {
        seq!['载']
    } else if c == '極' {
        seq!['极']
    } else if c == '念' || c == '卄' || c == '廿' {
        seq!['贰', '拾']
    } else if c == '卅' {
        seq!['叁', '拾']
    } else if c == '卌' {
        seq!['肆', '拾']
    } else if c == '皕' {
        seq!['贰', '佰']
    } else {
        seq![c]
    }
}

/// The canonical form of a numeral string: each character replaced by its
/// canonical expansion, in order.
pub open spec fn normalize_rep(s: Seq<char>) -> Seq<char>
    decreases s.len(),
{
    if s.len() == 0 {
        Seq::empty()
    } else {
        normalize_rep(s.drop_last()) + canon_char(s.last())
    }
}

fn push_canon(out: &mut Vec<char>, c: char)
    ensures
        final(out)@ == old(out)@ + canon_char(c),
{
    match c {
        '〇' => {
            out.push('零');
            assert(out@ =~= old(out)@ + canon_char(c));
        },
        '一' | '弌' => {
            out.push('壹');
            assert(out@ =~= old(out)@ + canon_char(c));
        },
        '二' | '貳' | '两' | '兩' | '弐' => {
            out.push('贰');
            assert(out@ =~= old(out)@ + canon_char(c));
        },
        '三' | '参' | '參' | '弎' => {
            out.push('叁');
            assert(out@ =~= old(out)@ + canon_char(c));
        },
        '亖' | '四' => {
            out.push('肆');
            assert(out@ =~= old(out)@ + canon_char(c));
        },
        '五' => {
            out.push('伍');
            assert(out@ =~= old(out)@ + canon_char(c));
        },
        '六' | '陸' => {
            out.push('陆');
            assert(out@ =~= old(out)@ + canon_char(c));
        },
        '七' => {
            out.push('柒');
            assert(out@ =~= old(out)@ + canon_char(c));
        },
        '八' => {
            out.push('捌');
            assert(out@ =~= old(out)@ + canon_char(c));
        },
        '九' => {
            out.push('玖');
            assert(out@ =~= old(out)@ + canon_char(c));
        },
        '十' | '什' => {
            out.push('拾');
            assert(out@ =~= old(out)@ + canon_char(c));
        },
        '百' | '陌' => {
            out.push('佰');
            assert(out@ =~= old(out)@ + canon_char(c));
        },
        '千' | '阡' => {
            out.push('仟');
            assert(out@ =~= old(out)@ + canon_char(c));
        },
        '萬' => {
            out.push('万');
            assert(out@ =~= old(out)@ + canon_char(c));
        },
        '億' => {
            out.push('亿');
            assert(out@ =~= old(out)@ + canon_char(c));
        },
        '壤' => {
            out.push('穰');
            assert(out@ =~= old(out)@ + canon_char(c));
        },
        '溝' => {
            out.push('沟');
            assert(out@ =~= old(out)@ + canon_char(c));
        },
        '澗' => {
            out.push('涧');
            assert(out@ =~= old(out)@ + canon_char(c));
        },
        '載' => {
            out.push('载');
            assert(out@ =~= old(out)@ + canon_char(c));
        },
        '極' => {
            out.push('极');
            assert(out@ =~= old(out)@ + canon_char(c));
        },
        '念' | '卄' | '廿' => {
            out.push('贰');
            out.push('拾');
            assert(out@ =~= old(out)@ + canon_char(c));
        },
        '卅' => {
            out.push('叁');
            out.push('拾');
            assert(out@ =~= old(out)@ + canon_char(c));
        },
        '卌' => {
            out.push('肆');
            out.push('拾');
            assert(out@ =~= old(out)@ + canon_char(c));
        },
        '皕' => {
            out.push('贰');
            out.push('佰');
            assert(out@ =~= old(out)@ + canon_char(c));
        },
        _ => {
            out.push(c);
            assert(out@ =~= old(out)@ + canon_char(c));
        },
    }
}

/// Rewrites a numeral's characters to their canonical form.
pub fn normalize_numeral(v: &Vec<char>) -> (out: Vec<char>)
    ensures
        out@ == normalize_rep(v@),
{
    let mut out: Vec<char> = Vec::new();
    let mut i: usize = 0;
    while i < v.len()
        invariant
            i <= v@.len(),
            out@ == normalize_rep(v@.take(i as int)),
        decreases v@.len() - i,
    {
        push_canon(&mut out, v[i]);
        proof {
            assert(v@.take(i + 1 as int).drop_last() =~= v@.take(i as int));
            assert(v@.take(i + 1 as int).last() == v@[i as int]);
        }
        i += 1;
    }
    assert(v@.take(v@.len() as int) =~= v@);
    out
}

proof fn lemma_norm_one(c: char)
    requires
        canon_char(c) == seq![c],
    ensures
        normalize_rep(seq![c]) == seq![c],
{
    assert(seq![c].drop_last() =~= Seq::<char>::empty());
    assert(seq![c].last() == c);
    assert(normalize_rep(Seq::<char>::empty()) == Seq::<char>::empty());
    assert(normalize_rep(seq![c]) == normalize_rep(Seq::<char>::empty()) + canon_char(c));
    assert(Seq::<char>::empty() + seq![c] =~= seq![c]);
}

proof fn lemma_fix_single(c: char, t: char)
    requires
        canon_char(c) == seq![t],
        canon_char(t) == seq![t],
    ensures
        normalize_rep(canon_char(c)) == canon_char(c),
{
    lemma_norm_one(t);
}

proof fn lemma_fix_pair(c: char, t1: char, t2: char)
    requires
        canon_char(c) == seq![t1, t2],
        canon_char(t1) == seq![t1],
        canon_char(t2) == seq![t2],
    ensures
        normalize_rep(canon_char(c)) == canon_char(c),
{
    assert(seq![t1, t2].drop_last() =~= seq![t1]);
    assert(seq![t1, t2].last() == t2);
    lemma_norm_one(t1);
    assert(normalize_rep(seq![t1, t2]) =~= seq![t1] + seq![t2]);
    assert(seq![t1] + seq![t2] =~= seq![t1, t2]);
}

/// Every canonical expansion is a fixed point of normalization.
proof fn lemma_canon_fixed(c: char)
    ensures
        normalize_rep(canon_char(c)) == canon_char(c),
{
    if c == '〇' {
        lemma_fix_single(c, '零');
    } else if c == '一' || c == '弌' {
        lemma_fix_single(c, '壹');
    } else if c == '二' || c == '貳' || c == '两' || c == '兩' || c == '弐' {
        lemma_fix_single(c, '贰');
    } else if c == '三' || c == '参' || c == '參' || c == '弎' {
        lemma_fix_single(c, '叁');
    } else if c == '亖' || c == '四' {
        lemma_fix_single(c, '肆');
    } else if c == '五' {
        lemma_fix_single(c, '伍');
    } else if c == '六' || c == '陸' {
        lemma_fix_single(c, '陆');
    } else if c == '七' {
        lemma_fix_single(c, '柒');
    } else if c == '八' {
        lemma_fix_single(c, '捌');
    } else if c == '九' {
        lemma_fix_single(c, '玖');
    } else if c == '十' || c == '什' {
        lemma_fix_single(c, '拾');
    } else if c == '百' || c == '陌' {
        lemma_fix_single(c, '佰');
    } else if c == '千' || c == '阡' {
        lemma_fix_single(c, '仟');
    } else if c == '萬' {
        lemma_fix_single(c, '万');
    } else if c == '億' {
        lemma_fix_single(c, '亿');
    } else if c == '壤' {
        lemma_fix_single(c, '穰');
    } else if c == '溝' {
        lemma_fix_single(c, '沟');
    } else if c == '澗' {
        lemma_fix_single(c, '涧');
    } else if c == '載' {
        lemma_fix_single(c, '载');
    } else if c == '極' {
        lemma_fix_single(c, '极');
    } else if c == '念' || c == '卄' || c == '廿' {
        lemma_fix_pair(c, '贰', '拾');
    } else if c == '卅' {
        lemma_fix_pair(c, '叁', '拾');
    } else if c == '卌' {
        lemma_fix_pair(c, '肆', '拾');
    } else if c == '皕' {
        lemma_fix_pair(c, '贰', '佰');
    } else {
        lemma_fix_single(c, c);
    }
}

proof fn lemma_norm_append(a: Seq<char>, b: Seq<char>)
    ensures
        normalize_rep(a + b) == normalize_rep(a) + normalize_rep(b),
    decreases b.len(),
{
    if b.len() == 0 {
        assert(a + b =~= a);
        assert(normalize_rep(b) == Seq::<char>::empty());
        assert(normalize_rep(a) + normalize_rep(b) =~= normalize_rep(a));
    } else {
        lemma_norm_append(a, b.drop_last());
        assert((a + b).drop_last() =~= a + b.drop_last());
        assert((a + b).last() == b.last());
        assert(normalize_rep(a + b) == normalize_rep(a + b.drop_last()) + canon_char(b.last()));
        assert(normalize_rep(a) + normalize_rep(b) =~= normalize_rep(a) + normalize_rep(
            b.drop_last(),
        ) + canon_char(b.last()));
    }
}

/// Normalization is idempotent: a canonical string normalizes to itself.
pub proof fn lemma_normalize_idempotent(s: Seq<char>)
    ensures
        normalize_rep(normalize_rep(s)) == normalize_rep(s),
    decreases s.len(),
{
    if s.len() == 0 {
    } else {
        lemma_normalize_idempotent(s.drop_last());
        lemma_norm_append(normalize_rep(s.drop_last()), canon_char(s.last()));
        lemma_canon_fixed(s.last());
    }
}

/// Normalizing then parsing yields the same value as parsing the canonical
/// form directly: whatever mix of standard, archaic and informal variant
/// characters a numeral uses, `zh2num` on it agrees with `zh2num` on its
/// canonical form.
pub proof fn lemma_normalized_parse_agrees(s: Seq<char>)
    ensures
        zh_parse(normalize_rep(normalize_rep(s))) == zh_parse(normalize_rep(s)),
{
    lemma_normalize_idempotent(s);
}

/// Interprets a Chinese numeral: normalizes variant characters to the
/// canonical alphabet, then parses the canonical string as a large-number
/// Chinese numeral.
pub fn zh2num(s: &str) -> (r: Result<i128, ZhNumError>)
    ensures
        r == zh_parse(normalize_rep(s@)),
{
    let cs = chars_of(s);
    let normalized = normalize_numeral(&cs);
    let canonical = string_of(&normalized);
    zh_parse_exec(canonical.as_str())
}

/// Failure of base-10 integer parsing.
#[derive(Clone, Copy, Debug, PartialEq, Eq, Structural)]
pub enum IntParseError {
    /// The input was empty.
    Empty,
    /// A character is not a decimal digit (or only a sign was given).
    InvalidDigit,
    /// The value exceeds the widest supported integer.
    PosOverflow,
    /// The value falls below the widest supported integer.
    NegOverflow,
}

/// Whether `c` is a decimal digit.
pub open spec fn is_dec_digit(c: char) -> bool {
    48 <= c as u32 <= 57
}

/// The left-to-right scan of a digit string with accumulated magnitude
/// `mag`: stops at the first non-digit or at the first digit that pushes the
/// value outside the representable range, exactly as std's base-10 parse
/// does.
pub open spec fn dec_scan(digits: Seq<char>, mag: int, negative: bool) -> Result<
    i128,
    IntParseError,
>
    decreases digits.len(),
{
    if digits.len() == 0 {
        if negative {
            Ok((-mag) as i128)
        } else {
            Ok(mag as i128)
        }
    } else if !is_dec_digit(digits[0]) {
        Err(IntParseError::InvalidDigit)
    } else {
        let mag2 = mag * 10 + (digits[0] as u32 - 48);
        if !negative && mag2 > i128::MAX as int {
            Err(IntParseError::PosOverflow)
        } else if negative && mag2 > i128::MAX as int + 1 {
            Err(IntParseError::NegOverflow)
        } else {
            dec_scan(digits.drop_first(), mag2, negative)
        }
    }
}

/// What base-10 parsing of `s` as a widest signed integer yields: an
/// optional sign, then at least one digit, with overflow reported at the
/// digit that leaves the representable range.
pub open spec fn parse_i128_rep(s: Seq<char>) -> Result<i128, IntParseError> {
    if s.len() == 0 {
        Err(IntParseError::Empty)
    } else {
        let negative = s[0] == '-';
        let digits = if s[0] == '-' || s[0] == '+' {
            s.drop_first()
        } else {
            s
        };
        if digits.len() == 0 {
            Err(IntParseError::InvalidDigit)
        } else {
            dec_scan(digits, 0, negative)
        }
    }
}

/// Parses `s` as a base-10 signed integer, as std's parse does.
pub fn parse_i128(s: &str) -> (r: Result<i128, IntParseError>)
    ensures
        r == parse_i128_rep(s@),
{
    let v = chars_of(s);
    if v.len() == 0 {
        return Err(IntParseError::Empty);
    }
    let c0 = v[0];
    let negative = c0 == '-';
    let start: usize = if c0 == '-' || c0 == '+' {
        1
    } else {
        0
    };
    if v.len() == start {
        return Err(IntParseError::InvalidDigit);
    }
    proof {
        if start == 1 {
            assert(s@.drop_first() =~= v@.skip(1));
        } else {
            assert(s@ =~= v@.skip(0));
        }
    }
    // The magnitude bound: `i128::MAX` for a positive value, one more for a
    // negative one.
    let limit: u128 = if negative {
        170141183460469231731687303715884105728u128
    } else {
        170141183460469231731687303715884105727u128
    };
    let mut mag: u128 = 0;
    let mut i: usize = start;
    while i < v.len()
        invariant
            v@ == s@,
            start <= i <= v@.len(),
            mag <= limit,
            limit == if negative {
                i128::MAX as int + 1
            } else {
                i128::MAX as int
            },
            parse_i128_rep(s@) == dec_scan(v@.skip(i as int), mag as int, negative),
        decreases v@.len() - i,
    {
        let c = v[i];
        let u = c as u32;
        proof {
            assert(v@.skip(i as int)[0] == v@[i as int]);
            assert(v@.skip(i as int).drop_first() =~= v@.skip(i + 1 as int));
        }
        if u < 48 || u > 57 {
            return Err(IntParseError::InvalidDigit);
        }
        let d = (u - 48) as u128;
        let stepped = match mag.checked_mul(10) {
            Some(m) => m.checked_add(d),
            None => None,
        };
        match stepped {
            Some(m2) => {
                if m2 > limit {
                    if negative {
                        return Err(IntParseError::NegOverflow);
                    } else {
                        return Err(IntParseError::PosOverflow);
                    }
                }
                mag = m2;
            },
            None => {
                if negative {
                    return Err(IntParseError::NegOverflow);
                } else {
                    return Err(IntParseError::PosOverflow);
                }
            },
        }
        i += 1;
    }
    proof {
        assert(v@.skip(v@.len() as int) =~= Seq::<char>::empty());
        assert(dec_scan(Seq::<char>::empty(), mag as int, negative) == if negative {
            Ok::<i128, IntParseError>((-(mag as int)) as i128)
        } else {
            Ok::<i128, IntParseError>((mag as int) as i128)
        });
    }
    if negative {
        if mag == 170141183460469231731687303715884105728u128 {
            assert((-(mag as int)) as i128 == i128::MIN);
            Ok(i128::MIN)
        } else {
            assert(-(mag as int) == -(mag as i128) as int);
            Ok(-(mag as i128))
        }
    } else {
        Ok(mag as i128)
    }
}

} // verus!
