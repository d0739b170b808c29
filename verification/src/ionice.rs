//! The `ionice` setting written as `ionice` command-line options (`-c3`,
//! `-c2 -n7`, `-c 1 -n 0`): the class by `-c` (1 or `realtime`, 2 or
//! `best-effort`, 3 or `idle`) and the level by `-n` (0 to 7), each either
//! joined to its value or followed by it; a later option overrides an earlier
//! one.  As with `ionice`, the class is best-effort where only `-n` is given,
//! the level is 4 where no `-n` is given, and the idle class takes no level.
use vstd::prelude::*;
use crate::device::{first_some, io_class_ok, IoClass};
use crate::text::{chars_eq, chars_of, fields, parse_usize, parse_usize_in, split_fields, words_view};

verus! {

pub open spec fn dash_c() -> Seq<char> {
    seq!['-', 'c']
}

pub open spec fn dash_n() -> Seq<char> {
    seq!['-', 'n']
}

/// The values given to `-c` and to `-n` in the option words `t` (the last of
/// each), or `None` where `t` holds anything else, or an option without its value.
pub open spec fn ionice_options(t: Seq<Seq<char>>) -> Option<(Option<Seq<char>>, Option<Seq<char>>)>
    decreases t.len(),
{
    if t.len() == 0 {
        Some((None, None))
    } else {
        let w = t[0];
        if w == dash_c() || w == dash_n() {
            if t.len() < 2 {
                None
            } else {
                match ionice_options(t.skip(2)) {
                    None => None,
                    Some((c, n)) => if w == dash_c() {
                        Some((first_some(c, Some(t[1])), n))
                    } else {
                        Some((c, first_some(n, Some(t[1]))))
                    },
                }
            }
        } else if w.len() > 2 && (w.take(2) == dash_c() || w.take(2) == dash_n()) {
            match ionice_options(t.skip(1)) {
                None => None,
                Some((c, n)) => if w.take(2) == dash_c() {
                    Some((first_some(c, Some(w.skip(2))), n))
                } else {
                    Some((c, first_some(n, Some(w.skip(2)))))
                },
            }
        } else {
            None
        }
    }
}

/// The class number that a `-c` value names: 1 (`realtime`), 2
/// (`best-effort`) or 3 (`idle`).
pub open spec fn class_number(w: Seq<char>) -> Option<u8> {
    if w == seq!['1'] || w == seq!['r', 'e', 'a', 'l', 't', 'i', 'm', 'e'] {
        Some(1u8)
    } else if w == seq!['2'] || w == seq!['b', 'e', 's', 't', '-', 'e', 'f', 'f', 'o', 'r', 't'] {
        Some(2u8)
    } else if w == seq!['3'] || w == seq!['i', 'd', 'l', 'e'] {
        Some(3u8)
    } else {
        None
    }
}

/// The level that a `-n` value gives, where it is one of 0 to 7; 4 where
/// there is no `-n`.
pub open spec fn class_level(n: Option<Seq<char>>) -> Option<u8> {
    match n {
        None => Some(4u8),
        Some(t) => match parse_usize(t) {
            Some(v) => if v < 8 {
                Some(v as u8)
            } else {
                None
            },
            None => None,
        },
    }
}

/// The I/O class that the `ionice` options in `s` set, or `None` where they
/// set none or are not understood.
pub open spec fn ionice_class(s: Seq<char>) -> Option<IoClass> {
    match ionice_options(fields(s)) {
        None => None,
        Some((c, n)) => {
            let class = match c {
                Some(w) => class_number(w),
                None => if n is Some {
                    Some(2u8)
                } else {
                    None
                },
            };
            match (class, class_level(n)) {
                (Some(1u8), Some(l)) => Some(IoClass::Realtime(l)),
                (Some(2u8), Some(l)) => Some(IoClass::BestEffort(l)),
                (Some(3u8), Some(_)) => Some(IoClass::Idle),
                _ => None,
            }
        },
    }
}

/// An option value: the word at an index, from a character offset on.
pub open spec fn pick_view(tv: Seq<Seq<char>>, p: Option<(usize, usize)>) -> Option<Seq<char>> {
    match p {
        Some((k, o)) => Some(tv[k as int].skip(o as int)),
        None => None,
    }
}

pub open spec fn pick_ok(toks: Seq<Vec<char>>, p: Option<(usize, usize)>) -> bool {
    match p {
        Some((k, o)) => k < toks.len() && o <= toks[k as int]@.len(),
        None => true,
    }
}

fn is_option(w: &Vec<char>, letter: char) -> (r: bool)
    ensures
        r == (w@ == seq!['-', letter]),
{
    let r = w.len() == 2 && w[0] == '-' && w[1] == letter;
    if r {
        assert(w@ =~= seq!['-', letter]);
    }
    r
}

fn has_option_prefix(w: &Vec<char>, letter: char) -> (r: bool)
    ensures
        r == (w@.len() > 2 && w@.take(2) == seq!['-', letter]),
{
    let r = w.len() > 2 && w[0] == '-' && w[1] == letter;
    if w.len() > 2 {
        if r {
            assert(w@.take(2) =~= seq!['-', letter]);
        } else {
            assert(w@.take(2)[0] == w@[0] && w@.take(2)[1] == w@[1]);
        }
    }
    r
}

fn options_from(toks: &Vec<Vec<char>>, i: usize) -> (r: Option<
    (Option<(usize, usize)>, Option<(usize, usize)>),
>)
    requires
        i <= toks.len(),
    ensures
        match r {
            None => ionice_options(words_view(toks@).skip(i as int)) is None,
            Some((c, n)) => {
                &&& ionice_options(words_view(toks@).skip(i as int)) == Some(
                    (pick_view(words_view(toks@), c), pick_view(words_view(toks@), n)),
                )
                &&& pick_ok(toks@, c)
                &&& pick_ok(toks@, n)
            },
        },
    decreases toks.len() - i,
{
    let ghost tv = words_view(toks@);
    let ghost t = tv.skip(i as int);
    if i == toks.len() {
        assert(t =~= Seq::<Seq<char>>::empty());
        return Some((None, None));
    }
    let w = &toks[i];
    assert(t[0] == w@);
    let c_opt = is_option(w, 'c');
    let n_opt = is_option(w, 'n');
    assert(dash_c() =~= seq!['-', 'c']);
    assert(dash_n() =~= seq!['-', 'n']);
    if c_opt || n_opt {
        if i + 1 >= toks.len() {
            return None;
        }
        assert(t.skip(2) =~= tv.skip(i + 2));
        assert(t[1] == tv[i + 1]);
        assert(tv[i + 1].skip(0) =~= tv[i + 1]);
        let rest = options_from(toks, i + 2);
        match rest {
            None => None,
            Some((c, n)) => {
                if c_opt {
                    let c2 = if c.is_some() {
                        c
                    } else {
                        Some((i + 1, 0))
                    };
                    Some((c2, n))
                } else {
                    let n2 = if n.is_some() {
                        n
                    } else {
                        Some((i + 1, 0))
                    };
                    Some((c, n2))
                }
            },
        }
    } else {
        let c_pre = has_option_prefix(w, 'c');
        let n_pre = has_option_prefix(w, 'n');
        if c_pre || n_pre {
            assert(t.skip(1) =~= tv.skip(i + 1));
            let rest = options_from(toks, i + 1);
            match rest {
                None => None,
                Some((c, n)) => {
                    if c_pre {
                        let c2 = if c.is_some() {
                            c
                        } else {
                            Some((i, 2))
                        };
                        Some((c2, n))
                    } else {
                        let n2 = if n.is_some() {
                            n
                        } else {
                            Some((i, 2))
                        };
                        Some((c, n2))
                    }
                },
            }
        } else {
            None
        }
    }
}

fn class_code(w: &Vec<char>, o: usize) -> (r: Option<u8>)
    requires
        o <= w.len(),
    ensures
        r == class_number(w@.skip(o as int)),
{
    let one: Vec<char> = vec!['1'];
    let two: Vec<char> = vec!['2'];
    let three: Vec<char> = vec!['3'];
    let realtime: Vec<char> = vec!['r', 'e', 'a', 'l', 't', 'i', 'm', 'e'];
    let best_effort: Vec<char> = vec!['b', 'e', 's', 't', '-', 'e', 'f', 'f', 'o', 'r', 't'];
    let idle: Vec<char> = vec!['i', 'd', 'l', 'e'];
    assert(one@ =~= seq!['1']);
    assert(two@ =~= seq!['2']);
    assert(three@ =~= seq!['3']);
    assert(realtime@ =~= seq!['r', 'e', 'a', 'l', 't', 'i', 'm', 'e']);
    assert(best_effort@ =~= seq!['b', 'e', 's', 't', '-', 'e', 'f', 'f', 'o', 'r', 't']);
    assert(idle@ =~= seq!['i', 'd', 'l', 'e']);
    if chars_eq(w, o, &one) || chars_eq(w, o, &realtime) {
        Some(1)
    } else if chars_eq(w, o, &two) || chars_eq(w, o, &best_effort) {
        Some(2)
    } else if chars_eq(w, o, &three) || chars_eq(w, o, &idle) {
        Some(3)
    } else {
        None
    }
}

/// The I/O class that the `ionice` command-line options in `s` set
/// (`"-c3"` idle, `"-c2 -n7"` best-effort at level 7), or `None` where they
/// set none or are not understood.
pub fn parse_ionice(s: &str) -> (r: Option<IoClass>)
    ensures
        r == ionice_class(s@),
        io_class_ok(r),
{
    let v = chars_of(s);
    let toks = split_fields(&v);
    let ghost tv = words_view(toks@);
    assert(tv.skip(0) =~= tv);
    let opts = options_from(&toks, 0);
    match opts {
        None => None,
        Some((c, n)) => {
            let class: Option<u8> = match c {
                Some((k, o)) => class_code(&toks[k], o),
                None => if n.is_some() {
                    Some(2)
                } else {
                    None
                },
            };
            let level: Option<u8> = match n {
                None => Some(4),
                Some((k, o)) => {
                    let w = &toks[k];
                    assert(w@.subrange(o as int, w@.len() as int) =~= w@.skip(o as int));
                    match parse_usize_in(w, o, w.len()) {
                        Some(x) => if x < 8 {
                            Some(x as u8)
                        } else {
                            None
                        },
                        None => None,
                    }
                },
            };
            match (class, level) {
                (Some(1), Some(l)) => Some(IoClass::Realtime(l)),
                (Some(2), Some(l)) => Some(IoClass::BestEffort(l)),
                (Some(3), Some(_)) => Some(IoClass::Idle),
                _ => None,
            }
        },
    }
}

} // verus!
