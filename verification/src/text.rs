//! Small verified text utilities: string equality, decimal rendering of
//! integers, and path joining. These back the URI and message construction
//! elsewhere in the crate.
use vstd::prelude::*;

verus! {

/// Decides whether two texts are equal, character for character.
pub fn str_eq(a: &str, b: &str) -> (r: bool)
    ensures
        r == (a@ == b@),
{
    let a_len = a.unicode_len();
    let b_len = b.unicode_len();
    if a_len != b_len {
        return false;
    }
    for i in 0..a_len
        invariant
            a_len == a@.len(),
            a_len == b@.len(),
            forall|j: int| 0 <= j < i ==> a@[j] == b@[j],
    {
        if a.get_char(i) != b.get_char(i) {
            return false;
        }
    }
    proof {
        assert(a@ =~= b@);
    }
    true
}

/// The character for one decimal digit.
pub open spec fn spec_dec_digit(d: nat) -> char {
    if d == 0 {
        '0'
    } else if d == 1 {
        '1'
    } else if d == 2 {
        '2'
    } else if d == 3 {
        '3'
    } else if d == 4 {
        '4'
    } else if d == 5 {
        '5'
    } else if d == 6 {
        '6'
    } else if d == 7 {
        '7'
    } else if d == 8 {
        '8'
    } else {
        '9'
    }
}

/// The decimal rendering of a natural number, without leading zeros
/// (except for the number zero itself).
pub open spec fn spec_dec_digits(n: nat) -> Seq<char>
    decreases n,
{
    if n < 10 {
        seq![spec_dec_digit(n)]
    } else {
        spec_dec_digits(n / 10).push(spec_dec_digit(n % 10))
    }
}

fn dec_digit_str(d: u64) -> (r: &'static str)
    requires
        d < 10,
    ensures
        r@ == seq![spec_dec_digit(d as nat)],
{
    let r: &'static str = if d == 0 {
        "0"
    } else if d == 1 {
        "1"
    } else if d == 2 {
        "2"
    } else if d == 3 {
        "3"
    } else if d == 4 {
        "4"
    } else if d == 5 {
        "5"
    } else if d == 6 {
        "6"
    } else if d == 7 {
        "7"
    } else if d == 8 {
        "8"
    } else {
        "9"
    };
    proof {
        reveal_strlit("0");
        reveal_strlit("1");
        reveal_strlit("2");
        reveal_strlit("3");
        reveal_strlit("4");
        reveal_strlit("5");
        reveal_strlit("6");
        reveal_strlit("7");
        reveal_strlit("8");
        reveal_strlit("9");
        assert(r@ =~= seq![spec_dec_digit(d as nat)]);
    }
    r
}

/// Renders an unsigned integer in decimal.
pub fn u64_to_dec_string(n: u64) -> (s: String)
    ensures
        s@ == spec_dec_digits(n as nat),
    decreases n,
{
    if n < 10 {
        dec_digit_str(n).to_owned()
    } else {
        let mut s = u64_to_dec_string(n / 10);
        s.append(dec_digit_str(n % 10));
        proof {
            assert(s@ =~= spec_dec_digits(n as nat));
        }
        s
    }
}

/// The text of `a` and `b` joined by a single separator character.
pub open spec fn spec_joined(a: Seq<char>, sep: char, b: Seq<char>) -> Seq<char> {
    a + seq![sep] + b
}

/// Joins two path fragments with `/`.
pub fn join_path(a: &str, b: &str) -> (r: String)
    ensures
        r@ == spec_joined(a@, '/', b@),
{
    let mut s = a.to_owned();
    s.append("/");
    s.append(b);
    proof {
        reveal_strlit("/");
        assert(s@ =~= spec_joined(a@, '/', b@));
    }
    s
}


/// The text after the last `/`: the whole text when it holds none, empty
/// when it ends in one.
pub open spec fn spec_last_segment(s: Seq<char>) -> Seq<char>
    decreases s.len(),
{
    if s.len() == 0 {
        s
    } else if s.last() == '/' {
        Seq::<char>::empty()
    } else {
        spec_last_segment(s.drop_last()).push(s.last())
    }
}

proof fn lemma_last_segment(s: Seq<char>, cut: int)
    requires
        0 <= cut <= s.len(),
        cut > 0 ==> s[cut - 1] == '/',
        forall|j: int| cut <= j < s.len() ==> s[j] != '/',
    ensures
        spec_last_segment(s) == s.subrange(cut, s.len() as int),
    decreases s.len(),
{
    if cut == s.len() {
        if s.len() > 0 {
            assert(s.last() == '/');
        }
        assert(s.subrange(cut, s.len() as int) =~= Seq::<char>::empty());
        if s.len() == 0 {
            assert(spec_last_segment(s) =~= s.subrange(cut, s.len() as int));
        }
    } else {
        assert(s.last() != '/');
        lemma_last_segment(s.drop_last(), cut);
        assert(s.drop_last().subrange(cut, s.len() - 1) =~= s.subrange(cut, s.len() - 1));
        assert(s.subrange(cut, s.len() - 1).push(s.last()) =~= s.subrange(cut, s.len() as int));
    }
}

/// The text after the last `/` — for a download URL, the file name.
pub fn last_segment(s: &str) -> (r: String)
    ensures
        r@ == spec_last_segment(s@),
{
    let n = s.unicode_len();
    let mut cut: usize = 0;
    for i in 0..n
        invariant
            n == s@.len(),
            cut <= i,
            cut > 0 ==> s@[cut - 1] == '/',
            forall|j: int| cut <= j < i ==> s@[j] != '/',
    {
        if s.get_char(i) == '/' {
            cut = i + 1;
        }
    }
    proof {
        lemma_last_segment(s@, cut as int);
    }
    let r = s.substring_char(cut, n).to_owned();
    proof {
        assert(r@ =~= spec_last_segment(s@));
    }
    r
}

/// Appends one element, tracking the deep view.
pub(crate) fn push_deep<T: DeepView>(v: &mut Vec<T>, x: T)
    ensures
        final(v).deep_view() == old(v).deep_view().push(x.deep_view()),
{
    v.push(x);
    proof {
        let pre = old(v)@;
        assert(v@ == pre.push(x));
        assert forall|j: int| 0 <= j < v@.len() implies v.deep_view()[j] == old(v).deep_view().push(
            x.deep_view(),
        )[j] by {
            assert(v.deep_view()[j] == v@[j].deep_view());
            if j < pre.len() {
                assert(v@[j] == pre[j]);
                assert(old(v).deep_view()[j] == pre[j].deep_view());
            } else {
                assert(v@[j] == x);
            }
        }
        assert(v.deep_view() =~= old(v).deep_view().push(x.deep_view()));
    }
}

/// Appends clones of all of one vector's texts to another.
pub(crate) fn append_all(dst: &mut Vec<String>, src: &Vec<String>)
    ensures
        final(dst).deep_view() == old(dst).deep_view() + src.deep_view(),
{
    let len = src.len();
    for i in 0..len
        invariant
            len == src@.len(),
            dst.deep_view() == old(dst).deep_view() + src.deep_view().take(i as int),
    {
        push_deep(dst, src[i].clone());
        proof {
            assert(src.deep_view()[i as int] == src@[i as int].deep_view());
            assert(dst.deep_view() =~= old(dst).deep_view() + src.deep_view().take(i + 1));
        }
    }
    proof {
        assert(src.deep_view().take(src.deep_view().len() as int) =~= src.deep_view());
    }
}

} // verus!
