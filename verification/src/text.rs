use vstd::prelude::*;

verus! {

pub open spec fn replace_char(s: Seq<char>, from: char, to: Seq<char>) -> Seq<char>
    decreases s.len(),
{
    if s.len() == 0 {
        Seq::empty()
    } else {
        replace_char(s.drop_last(), from, to) + if s.last() == from {
            to
        } else {
            seq![s.last()]
        }
    }
}

/// The view of an optional string.
pub open spec fn opt_chars(o: Option<String>) -> Option<Seq<char>> {
    match o {
        Some(s) => Some(s@),
        None => None,
    }
}

/// What `str::to_lowercase` gives for a string (its Unicode lowercase mapping).
pub uninterp spec fn lowercase(s: Seq<char>) -> Seq<char>;

/// Calls `str::to_lowercase`; the result is named by `lowercase`.
#[verifier::external_body]
pub(crate) fn to_lowercase(s: &str) -> (r: String)
    ensures
        r@ == lowercase(s@),
{
    s.to_lowercase()
}

/// Replacing every `from` by text that holds no `from` leaves no `from` behind.
pub proof fn lemma_replace_char_leaves_none(s: Seq<char>, from: char, to: Seq<char>)
    requires
        !to.contains(from),
    ensures
        !replace_char(s, from, to).contains(from),
    decreases s.len(),
{
    if s.len() > 0 {
        lemma_replace_char_leaves_none(s.drop_last(), from, to);
        let head = replace_char(s.drop_last(), from, to);
        let tail = if s.last() == from {
            to
        } else {
            seq![s.last()]
        };
        if (head + tail).contains(from) {
            let k = choose|k: int| 0 <= k < (head + tail).len() && (head + tail)[k] == from;
            if k < head.len() {
                assert(head[k] == from);
            } else {
                assert(tail[k - head.len()] == from);
            }
        }
    }
}

/// Calls `String::push`: the string afterwards is the one before with `c` at its end.
#[verifier::external_body]
pub(crate) fn push_char(s: &mut String, c: char)
    ensures
        final(s)@ == old(s)@.push(c),
{
    s.push(c);
}

pub fn replace_all(s: &str, from: char, to: &str) -> (out: String)
    ensures
        out@ == replace_char(s@, from, to@),
{
    let mut out = String::new();
    for c in it: s.chars()
        invariant
            it.seq() == s@,
            out@ == replace_char(s@.take(it.index()), from, to@),
    {
        assert(s@.take(it.index() + 1).drop_last() == s@.take(it.index()));
        if c == from {
            out.append(to);
        } else {
            push_char(&mut out, c);
        }
    }
    assert(s@.take(s@.len() as int) == s@);
    out
}


/// `before` and `after` are what lies on either side of the first `sep` in `s`.
pub open spec fn is_first_split(s: Seq<char>, sep: char, before: Seq<char>, after: Seq<char>) -> bool {
    &&& s == before + seq![sep] + after
    &&& !before.contains(sep)
}

/// Splits `s` around the first occurrence of `sep`.
pub fn split_once_char(s: &str, sep: char) -> (r: Option<(String, String)>)
    ensures
        match r {
            Some((before, after)) => is_first_split(s@, sep, before@, after@),
            None => !s@.contains(sep),
        },
{
    let mut before = String::new();
    let mut after = String::new();
    let mut found = false;
    let ghost mut at: int = 0;
    for c in it: s.chars()
        invariant
            it.seq() == s@,
            !found ==> before@ == s@.take(it.index()) && !before@.contains(sep),
            !found ==> after@.len() == 0,
            found ==> {
                &&& 0 <= at < it.index()
                &&& before@ == s@.take(at)
                &&& !before@.contains(sep)
                &&& s@[at] == sep
                &&& after@ == s@.subrange(at + 1, it.index())
            },
    {
        let ghost i = it.index();
        if found {
            assert(s@.subrange(at + 1, i + 1) =~= s@.subrange(at + 1, i).push(c));
            push_char(&mut after, c);
        } else if c == sep {
            proof {
                at = i;
            }
            found = true;
            assert(after@ =~= s@.subrange(at + 1, i + 1));
        } else {
            assert(s@.take(i + 1) == s@.take(i).push(c));
            push_char(&mut before, c);
            assert(!before@.contains(sep)) by {
                if before@.contains(sep) {
                    let k = choose|k: int| 0 <= k < before@.len() && before@[k] == sep;
                    if k < i {
                        assert(s@.take(i)[k] == sep);
                    }
                }
            }
        }
    }
    if found {
        assert(s@ == before@ + seq![sep] + after@);
        Some((before, after))
    } else {
        assert(s@.take(s@.len() as int) == s@);
        None
    }
}

/// The first-occurrence split of a string is unique.
pub proof fn lemma_first_split_unique(
    s: Seq<char>,
    sep: char,
    before1: Seq<char>,
    after1: Seq<char>,
    before2: Seq<char>,
    after2: Seq<char>,
)
    requires
        is_first_split(s, sep, before1, after1),
        is_first_split(s, sep, before2, after2),
    ensures
        before1 == before2,
        after1 == after2,
{
    if before1.len() < before2.len() {
        assert(s[before1.len() as int] == sep);
        assert(before2[before1.len() as int] == sep);
        assert(false);
    } else if before2.len() < before1.len() {
        assert(s[before2.len() as int] == sep);
        assert(before1[before2.len() as int] == sep);
        assert(false);
    }
    assert(before1 == s.take(before1.len() as int));
    assert(before2 == s.take(before2.len() as int));
    assert(after1 == s.skip(before1.len() + 1int));
    assert(after2 == s.skip(before2.len() + 1int));
}

/// The decimal digit for `d`, which is below ten.
pub open spec fn digit_char(d: nat) -> char {
    ((d + 48) as u8) as char
}

/// The decimal representation of `n`, without leading zeros.
pub open spec fn decimal(n: nat) -> Seq<char>
    decreases n,
{
    if n < 10 {
        seq![digit_char(n)]
    } else {
        decimal(n / 10).push(digit_char(n % 10))
    }
}

/// Writes `n` in decimal.
pub fn u16_decimal(n: u16) -> (out: String)
    ensures
        out@ == decimal(n as nat),
    decreases n,
{
    let d: u8 = (n % 10) as u8;
    let c = (d + 48) as char;
    if n < 10 {
        let mut out = String::new();
        push_char(&mut out, c);
        out
    } else {
        let mut out = u16_decimal(n / 10);
        push_char(&mut out, c);
        out
    }
}

} // verus!
