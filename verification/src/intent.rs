//! Interpretation of one matched chat command into a structured intent.
//!
//! The command pattern exposes named capture slots; quantity resolution
//! takes the first filled slot in a fixed precedence order: Chinese
//! numeral, Arabic numeral, vague-quantity word, the "many" marker, the
//! "few" marker, and finally a default of one. The content-rating flag
//! follows the explicit marker, and AI-generated content is excluded
//! unless its marker asks to include it.

use crate::numeral::{
    parse_i128, parse_i128_rep, zh2num, zh_parse, normalize_rep, IntParseError, ZhNumError,
};
use crate::outside::draw_inclusive;
use crate::tags::{get_tags, tags_of};
use vstd::prelude::*;

verus! {

/// The named capture slots of one matched command. A slot is `None` when
/// the group did not participate in the match.
#[derive(Clone, Debug)]
pub struct CaptureSlots {
    /// Numeral written in Chinese characters.
    pub hans_num: Option<String>,
    /// Numeral written in Arabic digits.
    pub comn_num: Option<String>,
    /// One of a small fixed vocabulary of vague-quantity words.
    pub weak_num: Option<String>,
    /// Presence-only marker for "many".
    pub more: Option<String>,
    /// Presence-only marker for "few".
    pub less: Option<String>,
    /// Presence-only marker for explicit content.
    pub nsfw: Option<String>,
    /// Presence-only marker meaning "do not exclude AI content".
    pub ai: Option<String>,
    /// Free substring holding zero or more tag phrases.
    pub tags: Option<String>,
}

/// The structured result of interpreting one command.
#[derive(Clone, Debug)]
pub struct ParsedIntent {
    /// Requested quantity, before any clamping.
    pub quantity: i128,
    /// Content-rating flag: 1 requests explicit content.
    pub r18: u8,
    /// Tag phrases, in order of appearance; duplicates allowed.
    pub tags: Vec<String>,
    /// Whether AI-generated content is excluded.
    pub exclude_ai: bool,
}

/// Failure of numeral interpretation, by slot kind.
#[derive(Clone, Copy, Debug, PartialEq, Eq, Structural)]
pub enum CommandError {
    /// The Chinese-numeral slot did not parse.
    Numeral(ZhNumError),
    /// The Arabic-numeral slot did not parse.
    Integer(IntParseError),
}

/// Whether a capture slot participated in the match with non-empty text.
pub open spec fn slot_present(o: Option<String>) -> bool {
    match o {
        Some(s) => s@.len() > 0,
        None => false,
    }
}

fn present(o: &Option<String>) -> (r: bool)
    ensures
        r == slot_present(*o),
{
    match o {
        Some(s) => !s.as_str().is_empty(),
        None => false,
    }
}

/// Interprets the capture slots of one command.
///
/// Quantity precedence, first filled slot wins: Chinese numeral, Arabic
/// numeral, vague-quantity word, "many" marker, "few" marker, default 1.
/// Only the two numeral slots can fail; every other shape of command
/// yields an intent.
pub fn rxcap(cap: &CaptureSlots) -> (r: Result<ParsedIntent, CommandError>)
    ensures
        r matches Ok(it) ==> it.r18 == (if slot_present(cap.nsfw) {
            1u8
        } else {
            0u8
        }),
        r matches Ok(it) ==> it.exclude_ai == !slot_present(cap.ai),
        r matches Ok(it) ==> it.tags.deep_view() == (match cap.tags {
            Some(t) => tags_of(t@),
            None => Seq::<Seq<char>>::empty(),
        }),
        (match cap.hans_num {
            Some(h) => h@.len() > 0 ==> (match zh_parse(normalize_rep(h@)) {
                Ok(n) => r matches Ok(it) && it.quantity == n,
                Err(e) => r == Err::<ParsedIntent, CommandError>(CommandError::Numeral(e)),
            }),
            None => true,
        }),
        !slot_present(cap.hans_num) ==> (match cap.comn_num {
            Some(c) => c@.len() > 0 ==> (match parse_i128_rep(c@) {
                Ok(n) => r matches Ok(it) && it.quantity == n,
                Err(e) => r == Err::<ParsedIntent, CommandError>(CommandError::Integer(e)),
            }),
            None => true,
        }),
        !slot_present(cap.hans_num) && !slot_present(cap.comn_num) ==> (match cap.weak_num {
            Some(w) => w@.len() > 0 ==> (r matches Ok(it) && (if w@ == "俩仨"@ {
                1 <= it.quantity <= 4
            } else if w@ == "俩"@ {
                it.quantity == 2
            } else if w@ == "仨"@ {
                it.quantity == 3
            } else {
                it.quantity == 1
            })),
            None => true,
        }),
        !slot_present(cap.hans_num) && !slot_present(cap.comn_num) && !slot_present(cap.weak_num)
            && slot_present(cap.more) ==> (r matches Ok(it) && 5 <= it.quantity <= 10),
        !slot_present(cap.hans_num) && !slot_present(cap.comn_num) && !slot_present(cap.weak_num)
            && !slot_present(cap.more) && slot_present(cap.less) ==> (r matches Ok(it) && 1
            <= it.quantity <= 4),
        !slot_present(cap.hans_num) && !slot_present(cap.comn_num) && !slot_present(cap.weak_num)
            && !slot_present(cap.more) && !slot_present(cap.less) ==> (r matches Ok(it)
            && it.quantity == 1),
        r is Err ==> slot_present(cap.hans_num) || slot_present(cap.comn_num),
{
    let mut quantity: i128 = 1;
    if present(&cap.hans_num) {
        let h = match &cap.hans_num {
            Some(h) => h,
            None => unreached(),
        };
        match zh2num(h.as_str()) {
            Ok(n) => {
                quantity = n;
            },
            Err(e) => {
                return Err(CommandError::Numeral(e));
            },
        }
    } else if present(&cap.comn_num) {
        let c = match &cap.comn_num {
            Some(c) => c,
            None => unreached(),
        };
        match parse_i128(c.as_str()) {
            Ok(n) => {
                quantity = n;
            },
            Err(e) => {
                return Err(CommandError::Integer(e));
            },
        }
    } else if present(&cap.weak_num) {
        let w = match &cap.weak_num {
            Some(w) => w,
            None => unreached(),
        };
        if crate::text::str_eq(w.as_str(), "俩仨") {
            quantity = draw_inclusive(1, 4) as i128;
        } else if crate::text::str_eq(w.as_str(), "俩") {
            quantity = 2;
        } else if crate::text::str_eq(w.as_str(), "仨") {
            quantity = 3;
        }
    } else if present(&cap.more) {
        quantity = draw_inclusive(5, 10) as i128;
    } else if present(&cap.less) {
        quantity = draw_inclusive(1, 4) as i128;
    }
    let r18: u8 = if present(&cap.nsfw) {
        1
    } else {
        0
    };
    let exclude_ai = !present(&cap.ai);
    let tags = get_tags(
        match &cap.tags {
            Some(t) => Some(t.as_str()),
            None => None,
        },
    );
    Ok(ParsedIntent { quantity, r18, tags, exclude_ai })
}

} // verus!
