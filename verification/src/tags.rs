//! The tag-extraction mini-parser.
//!
//! The tag slot of a command is scanned left to right over code points with
//! three recognized delimiters: an opening quote mark, a closing quote mark,
//! and a suffix marker (a character meaning "of", used as an unquoted tag
//! terminator). A quoted span is emitted as one tag when it closes non-empty;
//! an unquoted segment is emitted when the suffix marker ends it non-empty.
//! An unterminated quote, an empty quoted span, and trailing text with no
//! marker are all dropped: a tag must be explicitly closed.

use crate::text::{chars_of, string_of_range};
use vstd::prelude::*;

verus! {

/// The tags emitted by the scan of `s` from position `i` onward, with the
/// current unquoted segment starting at `begin` and `quote` holding the
/// offset of the last unclosed opening quote mark, if any.
pub open spec fn tags_from(s: Seq<char>, i: int, begin: int, quote: Option<int>) -> Seq<Seq<char>>
    decreases s.len() - i,
{
    if i < 0 || i >= s.len() {
        Seq::empty()
    } else {
        let c = s[i];
        if c == '“' {
            tags_from(s, i + 1, begin, Some(i))
        } else if c == '”' {
            match quote {
                Some(qb) => if qb + 1 < i {
                    seq![s.subrange(qb + 1, i)] + tags_from(s, i + 1, i + 1, None::<int>)
                } else {
                    tags_from(s, i + 1, i + 1, None::<int>)
                },
                None => tags_from(s, i + 1, i + 1, None::<int>),
            }
        } else if c == '的' {
            match quote {
                Some(_) => tags_from(s, i + 1, begin, quote),
                None => if begin < i {
                    seq![s.subrange(begin, i)] + tags_from(s, i + 1, i + 1, None::<int>)
                } else {
                    tags_from(s, i + 1, i + 1, None::<int>)
                },
            }
        } else {
            tags_from(s, i + 1, begin, quote)
        }
    }
}

/// The tags of a whole tag slot.
pub open spec fn tags_of(s: Seq<char>) -> Seq<Seq<char>> {
    tags_from(s, 0, 0, None::<int>)
}

/// Extracts the tag phrases of the tag slot, in order of appearance.
/// An absent slot yields no tags.
pub fn get_tags(cap: Option<&str>) -> (tags: Vec<String>)
    ensures
        tags.deep_view() == match cap {
            Some(s) => tags_of(s@),
            None => Seq::<Seq<char>>::empty(),
        },
{
    let mut tags: Vec<String> = Vec::new();
    let s = match cap {
        Some(s) => s,
        None => {
            proof {
                assert(tags.deep_view() =~= Seq::<Seq<char>>::empty());
            }
            return tags;
        },
    };
    let v = chars_of(s);
    let n = v.len();
    let mut begin: usize = 0;
    let mut quote: Option<usize> = None;
    let mut i: usize = 0;
    proof {
        assert(tags.deep_view() + tags_of(s@) =~= tags_of(s@));
    }
    while i < n
        invariant
            n == v@.len(),
            v@ == s@,
            begin <= i <= n,
            match quote {
                Some(q) => q < i,
                None => true,
            },
            tags.deep_view() + tags_from(
                s@,
                i as int,
                begin as int,
                match quote {
                    Some(q) => Some(q as int),
                    None => None::<int>,
                },
            ) == tags_of(s@),
        decreases n - i,
    {
        let ghost prev_tags = tags.deep_view();
        let ghost rest = tags_from(
            s@,
            i as int,
            begin as int,
            match quote {
                Some(q) => Some(q as int),
                None => None::<int>,
            },
        );
        let c = v[i];
        if c == '“' {
            quote = Some(i);
        } else if c == '”' {
            match quote {
                Some(qb) => {
                    if qb + 1 < i {
                        let t = string_of_range(&v, qb + 1, i);
                        tags.push(t);
                        proof {
                            assert(tags.deep_view() =~= prev_tags.push(
                                s@.subrange(qb + 1 as int, i as int),
                            ));
                            assert(prev_tags + rest =~= tags.deep_view() + tags_from(
                                s@,
                                i + 1 as int,
                                i + 1 as int,
                                None::<int>,
                            ));
                        }
                    }
                },
                None => {},
            }
            quote = None;
            begin = i + 1;
        } else if c == '的' {
            match quote {
                Some(_) => {},
                None => {
                    if begin != i {
                        let t = string_of_range(&v, begin, i);
                        tags.push(t);
                        proof {
                            assert(tags.deep_view() =~= prev_tags.push(
                                s@.subrange(begin as int, i as int),
                            ));
                            assert(prev_tags + rest =~= tags.deep_view() + tags_from(
                                s@,
                                i + 1 as int,
                                i + 1 as int,
                                None::<int>,
                            ));
                        }
                    }
                    begin = i + 1;
                },
            }
        }
        i += 1;
    }
    proof {
        assert(tags.deep_view() + Seq::<Seq<char>>::empty() =~= tags.deep_view());
    }
    tags
}

} // verus!
