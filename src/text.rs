//! Small text utilities on which the wire formats rest: equality of
//! string slices, decimal rendering of integers, and the comma-separated
//! address list.
use vstd::prelude::*;
use vstd::string::*;

verus! {

/// The characters `0` to `9`, indexed by digit value.
pub open spec fn digit_char(d: nat) -> char {
    "0123456789"@[d as int]
}

/// Decimal rendering of a natural number, without leading zeros.
pub open spec fn decimal(n: nat) -> Seq<char>
    decreases n,
{
    if n < 10 {
        seq![digit_char(n)]
    } else {
        decimal(n / 10).push(digit_char(n % 10))
    }
}

/// Whether two string slices hold the same characters.
pub fn str_eq(a: &str, b: &str) -> (r: bool)
    ensures
        r == (a@ == b@),
{
    let x: String = a.to_owned();
    let y: String = b.to_owned();
    x == y
}

/// Appends the decimal rendering of `n` to `out`.
pub fn push_decimal(out: &mut String, n: u64)
    ensures
        final(out)@ == old(out)@ + decimal(n as nat),
    decreases n,
{
    if n >= 10 {
        push_decimal(out, n / 10);
    }
    let d: usize = (n % 10) as usize;
    let digits: &str = "0123456789";
    proof {
        reveal_strlit("0123456789");
    }
    let one: &str = digits.substring_char(d, d + 1);
    out.append(one);
    proof {
        assert(one@ =~= seq![digit_char(d as nat)]);
        if n >= 10 {
            assert(decimal(n as nat) == decimal((n / 10) as nat).push(digit_char((n % 10) as nat)));
        }
        assert(final(out)@ =~= old(out)@ + decimal(n as nat));
    }
}

/// The decimal rendering of `n` as a new string.
pub fn decimal_string(n: u64) -> (r: String)
    ensures
        r@ == decimal(n as nat),
{
    let mut s = String::new();
    push_decimal(&mut s, n);
    proof {
        assert(s@ =~= decimal(n as nat));
    }
    s
}


/// The pieces of `s` between commas, as `str::split(',')` gives them:
/// one more piece than there are commas, empty pieces included.
pub open spec fn comma_pieces(s: Seq<char>) -> Seq<Seq<char>>
    decreases s.len(),
{
    if s.len() == 0 {
        seq![Seq::<char>::empty()]
    } else {
        let p = comma_pieces(s.drop_last());
        if s.last() == ',' {
            p.push(Seq::<char>::empty())
        } else {
            p.update(p.len() - 1, p.last().push(s.last()))
        }
    }
}

pub open spec fn is_nonempty() -> spec_fn(Seq<char>) -> bool {
    |p: Seq<char>| p.len() > 0
}

/// The non-empty comma-separated entries of `s`, in order.
pub open spec fn address_list(s: Seq<char>) -> Seq<Seq<char>> {
    comma_pieces(s).filter(is_nonempty())
}

/// The texts of a sequence of strings.
pub open spec fn texts(v: Seq<String>) -> Seq<Seq<char>> {
    v.map_values(|x: String| x@)
}

proof fn lemma_comma_pieces_nonempty(s: Seq<char>)
    ensures
        comma_pieces(s).len() >= 1,
    decreases s.len(),
{
    if s.len() > 0 {
        lemma_comma_pieces_nonempty(s.drop_last());
    }
}

proof fn lemma_texts_push(v: Seq<String>, x: String)
    ensures
        texts(v.push(x)) == texts(v).push(x@),
{
    assert(texts(v.push(x)) =~= texts(v).push(x@));
}

/// Splits a comma-separated list and keeps its non-empty entries.
pub fn split_addresses(s: &str) -> (r: Vec<String>)
    ensures
        texts(r@) == address_list(s@),
{
    broadcast use vstd::seq_lib::group_seq_properties;
    let n = s.unicode_len();
    let mut out: Vec<String> = Vec::new();
    let mut start: usize = 0;
    let mut i: usize = 0;
    proof {
        assert(s@.subrange(0, 0) =~= Seq::<char>::empty());
        assert(texts(out@) =~= Seq::<Seq<char>>::empty());
        reveal(Seq::filter);
        assert(comma_pieces(s@.subrange(0, 0)).drop_last() =~= Seq::<Seq<char>>::empty());
        assert(s@.subrange(0, 0) =~= s@.subrange(0, 0));
    }
    while i < n
        invariant
            n == s@.len(),
            0 <= start <= i <= n,
            comma_pieces(s@.subrange(0, i as int)).last() == s@.subrange(start as int, i as int),
            texts(out@) == comma_pieces(s@.subrange(0, i as int)).drop_last().filter(is_nonempty()),
        decreases n - i,
    {
        let c = s.get_char(i);
        let ghost pre = s@.subrange(0, i as int);
        let ghost post = s@.subrange(0, i + 1);
        let ghost p = comma_pieces(pre);
        proof {
            assert(post.drop_last() =~= pre);
            assert(post.last() == c);
            lemma_comma_pieces_nonempty(pre);
            assert(p =~= p.drop_last().push(p.last()));
        }
        if c == ',' {
            if start < i {
                let piece = s.substring_char(start, i).to_owned();
                proof {
                    lemma_texts_push(out@, piece);
                }
                out.push(piece);
            }
            proof {
                assert(comma_pieces(post) == p.push(Seq::<char>::empty()));
                assert(comma_pieces(post).drop_last() =~= p);
                p.drop_last().lemma_filter_push(p.last(), is_nonempty());
                assert(s@.subrange(i + 1, i + 1) =~= Seq::<char>::empty());
            }
            start = i + 1;
        } else {
            proof {
                let q = p.update(p.len() - 1, p.last().push(c));
                assert(comma_pieces(post) == q);
                assert(q.drop_last() =~= p.drop_last());
                assert(q.last() =~= s@.subrange(start as int, i + 1));
            }
        }
        i = i + 1;
    }
    proof {
        assert(s@.subrange(0, n as int) =~= s@);
    }
    let ghost p = comma_pieces(s@);
    proof {
        lemma_comma_pieces_nonempty(s@);
        assert(p =~= p.drop_last().push(p.last()));
        p.drop_last().lemma_filter_push(p.last(), is_nonempty());
    }
    if start < n {
        let piece = s.substring_char(start, n).to_owned();
        proof {
            lemma_texts_push(out@, piece);
        }
        out.push(piece);
    } else {
        proof {
            assert(p.last().len() == 0);
        }
    }
    out
}
} // verus!
