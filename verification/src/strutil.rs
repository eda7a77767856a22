//! Small verified string utilities shared by the store and the
//! translation engine: character-wise equality of string slices and
//! splitting a string on whitespace.

use vstd::prelude::*;

verus! {

/// The views of a sequence of strings.
pub open spec fn strs_view(s: Seq<String>) -> Seq<Seq<char>> {
    s.map_values(|x: String| x@)
}

/// Character-wise equality test for string slices.
pub fn str_eq(a: &str, b: &str) -> (r: bool)
    ensures
        r == (a@ == b@),
{
    let sa = String::from_str(a);
    let sb = String::from_str(b);
    sa == sb
}

/// The characters the splitter treats as whitespace.
pub open spec fn is_ws(c: char) -> bool {
    c == ' ' || c == '\t' || c == '\n' || c == '\r'
}

/// The words of `cur + s`, where `cur` is a partial word already read:
/// whitespace closes the current word, any other character extends it,
/// and a word left open at the end still counts.
pub open spec fn split_ws_acc(s: Seq<char>, cur: Seq<char>) -> Seq<Seq<char>>
    decreases s.len(),
{
    if s.len() == 0 {
        if cur.len() == 0 {
            Seq::empty()
        } else {
            seq![cur]
        }
    } else if is_ws(s[0]) {
        if cur.len() == 0 {
            split_ws_acc(s.drop_first(), Seq::empty())
        } else {
            seq![cur] + split_ws_acc(s.drop_first(), Seq::empty())
        }
    } else {
        split_ws_acc(s.drop_first(), cur.push(s[0]))
    }
}

/// The maximal whitespace-free words of `s`, in order.
pub open spec fn split_ws_spec(s: Seq<char>) -> Seq<Seq<char>> {
    split_ws_acc(s, Seq::empty())
}

/// Splits a string on whitespace into its maximal non-blank words.
pub fn split_ws(s: &str) -> (r: Vec<String>)
    ensures
        strs_view(r@) == split_ws_spec(s@),
{
    let n = s.unicode_len();
    let mut out: Vec<String> = Vec::new();
    let mut i: usize = 0;
    let mut start: usize = 0;
    let mut in_word: bool = false;
    proof {
        assert(s@.skip(0) =~= s@);
        assert(strs_view(out@) + split_ws_acc(s@, Seq::<char>::empty()) =~= split_ws_spec(s@));
    }
    while i < n
        invariant
            n == s@.len(),
            i <= n,
            in_word ==> start < i,
            in_word ==> split_ws_spec(s@) == strs_view(out@) + split_ws_acc(
                s@.skip(i as int),
                s@.subrange(start as int, i as int),
            ),
            !in_word ==> split_ws_spec(s@) == strs_view(out@) + split_ws_acc(
                s@.skip(i as int),
                Seq::<char>::empty(),
            ),
        decreases n - i,
    {
        let c = s.get_char(i);
        let ws = c == ' ' || c == '\t' || c == '\n' || c == '\r';
        proof {
            assert(s@.skip(i as int)[0] == s@[i as int]);
            assert(s@.skip(i as int).drop_first() =~= s@.skip(i as int + 1));
        }
        if ws {
            if in_word {
                let w = String::from_str(s.substring_char(start, i));
                proof {
                    let ghost cur = s@.subrange(start as int, i as int);
                    assert(cur.len() > 0);
                    assert(strs_view(out@.push(w)) =~= strs_view(out@).push(cur));
                    assert(strs_view(out@) + (seq![cur] + split_ws_acc(
                        s@.skip(i as int + 1),
                        Seq::<char>::empty(),
                    )) =~= strs_view(out@.push(w)) + split_ws_acc(
                        s@.skip(i as int + 1),
                        Seq::<char>::empty(),
                    ));
                }
                out.push(w);
                in_word = false;
            }
        } else {
            if !in_word {
                start = i;
                in_word = true;
                proof {
                    assert(Seq::<char>::empty().push(s@[i as int]) =~= s@.subrange(
                        i as int,
                        i as int + 1,
                    ));
                }
            } else {
                proof {
                    assert(s@.subrange(start as int, i as int).push(s@[i as int]) =~= s@.subrange(
                        start as int,
                        i as int + 1,
                    ));
                }
            }
        }
        i = i + 1;
    }
    proof {
        assert(s@.skip(n as int) =~= Seq::<char>::empty());
    }
    if in_word {
        let w = String::from_str(s.substring_char(start, n));
        proof {
            let ghost cur = s@.subrange(start as int, n as int);
            assert(split_ws_acc(s@.skip(n as int), cur) =~= seq![cur]);
            assert(strs_view(out@.push(w)) =~= strs_view(out@).push(cur));
            assert(strs_view(out@) + seq![cur] =~= strs_view(out@.push(w)));
        }
        out.push(w);
    } else {
        proof {
            assert(strs_view(out@) + Seq::<Seq<char>>::empty() =~= strs_view(out@));
        }
    }
    out
}

} // verus!
