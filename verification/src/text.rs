//! Character-level text helpers for the renderer: padding, decimal
//! rendering of line numbers, prefix tests for the target filters, and the
//! stripping of the runtime's thread-id punctuation.

use vstd::prelude::*;

verus! {

/// Relies on `String::push`: appends exactly the given character.
#[verifier::external_body]
pub fn push_char(s: &mut String, c: char)
    ensures
        final(s)@ == old(s)@.push(c),
{
    s.push(c);
}

/// A run of `n` spaces (empty when `n` is negative).
pub open spec fn spaces(n: int) -> Seq<char> {
    Seq::new(
        if n >= 0 {
            n as nat
        } else {
            0
        },
        |i: int| ' ',
    )
}

/// `s` padded with spaces on the left up to `width` characters; a width of
/// at most `s`'s length leaves `s` unchanged.
pub open spec fn pad_left_spec(s: Seq<char>, width: int) -> Seq<char> {
    if s.len() >= width {
        s
    } else {
        spaces(width - s.len()) + s
    }
}

/// `s` padded with spaces on the right up to `width` characters; a width of
/// at most `s`'s length leaves `s` unchanged.
pub open spec fn pad_right_spec(s: Seq<char>, width: int) -> Seq<char> {
    if s.len() >= width {
        s
    } else {
        s + spaces(width - s.len())
    }
}

/// Pad `s` on the left to `width` characters.
pub fn pad_left(s: &str, width: usize) -> (r: String)
    ensures
        r@ == pad_left_spec(s@, width as int),
{
    let n = s.unicode_len();
    if n >= width {
        s.to_owned()
    } else {
        let mut r = String::new();
        let gap = width - n;
        let mut k: usize = 0;
        proof {
            assert(r@ =~= spaces(0));
        }
        while k < gap
            invariant
                k <= gap,
                gap == width - n,
                n == s@.len(),
                n < width,
                r@ == spaces(k as int),
            decreases gap - k,
        {
            r.append(" ");
            k = k + 1;
            proof {
                reveal_strlit(" ");
                assert(r@ =~= spaces(k as int));
            }
        }
        r.append(s);
        proof {
            assert(r@ =~= pad_left_spec(s@, width as int));
        }
        r
    }
}

/// Pad `s` on the right to `width` characters.
pub fn pad_right(s: &str, width: usize) -> (r: String)
    ensures
        r@ == pad_right_spec(s@, width as int),
{
    let n = s.unicode_len();
    if n >= width {
        s.to_owned()
    } else {
        let mut r = s.to_owned();
        let gap = width - n;
        let mut k: usize = 0;
        proof {
            assert(r@ =~= s@ + spaces(0));
        }
        while k < gap
            invariant
                k <= gap,
                gap == width - n,
                n == s@.len(),
                n < width,
                r@ == s@ + spaces(k as int),
            decreases gap - k,
        {
            r.append(" ");
            k = k + 1;
            proof {
                reveal_strlit(" ");
                assert(r@ =~= s@ + spaces(k as int));
            }
        }
        proof {
            assert(r@ =~= pad_right_spec(s@, width as int));
        }
        r
    }
}

/// Whether `p` is a literal prefix of `s`.
pub open spec fn is_prefix_of(p: Seq<char>, s: Seq<char>) -> bool {
    p.len() <= s.len() && p == s.subrange(0, p.len() as int)
}

/// Whether `s` starts with `prefix`, by characters.
pub fn str_starts_with(s: &str, prefix: &str) -> (r: bool)
    ensures
        r == is_prefix_of(prefix@, s@),
{
    let pl = prefix.unicode_len();
    let sl = s.unicode_len();
    if pl > sl {
        return false;
    }
    let mut i: usize = 0;
    while i < pl
        invariant
            i <= pl,
            pl == prefix@.len(),
            sl == s@.len(),
            pl <= sl,
            forall|j: int| 0 <= j < i as int ==> prefix@[j] == s@[j],
        decreases pl - i,
    {
        if s.get_char(i) != prefix.get_char(i) {
            proof {
                assert(s@.subrange(0, pl as int)[i as int] == s@[i as int]);
            }
            return false;
        }
        i = i + 1;
    }
    proof {
        assert(prefix@ =~= s@.subrange(0, pl as int));
    }
    true
}

/// The character of a single decimal digit.
pub open spec fn digit_char(d: int) -> char {
    if d == 0 {
        '0'
    } else if d == 1 {
        '1'
    } else if d == 2 {
        '2'
    } else if d == 3 {
        '3'
    } else if d == 4 {
        '4'
    } else if d == 5 {
        '5'
    } else if d == 6 {
        '6'
    } else if d == 7 {
        '7'
    } else if d == 8 {
        '8'
    } else {
        '9'
    }
}

/// The decimal rendering of `n`, without leading zeros (except for zero
/// itself).
pub open spec fn dec_str(n: nat) -> Seq<char>
    decreases n,
{
    if n < 10 {
        seq![digit_char(n as int)]
    } else {
        dec_str(n / 10).push(digit_char((n % 10) as int))
    }
}

/// The character of one digit.
fn digit_to_char(d: u32) -> (c: char)
    requires
        d < 10,
    ensures
        c == digit_char(d as int),
{
    if d == 0 {
        '0'
    } else if d == 1 {
        '1'
    } else if d == 2 {
        '2'
    } else if d == 3 {
        '3'
    } else if d == 4 {
        '4'
    } else if d == 5 {
        '5'
    } else if d == 6 {
        '6'
    } else if d == 7 {
        '7'
    } else if d == 8 {
        '8'
    } else {
        '9'
    }
}

/// Render `n` in decimal.
pub fn u32_to_string(n: u32) -> (r: String)
    ensures
        r@ == dec_str(n as nat),
    decreases n,
{
    if n < 10 {
        let mut r = String::new();
        push_char(&mut r, digit_to_char(n));
        proof {
            assert(r@ =~= dec_str(n as nat));
        }
        r
    } else {
        let mut r = u32_to_string(n / 10);
        push_char(&mut r, digit_to_char(n % 10));
        r
    }
}

/// `s` with every closing parenthesis removed.
pub open spec fn without_closing(s: Seq<char>) -> Seq<char>
    decreases s.len(),
{
    if s.len() == 0 {
        s
    } else {
        (if s[0] == ')' {
            Seq::<char>::empty()
        } else {
            seq![s[0]]
        }) + without_closing(s.drop_first())
    }
}

/// The thread id as shown: the runtime's debug rendering with the
/// `ThreadId(` prefix and the closing parentheses removed.
pub open spec fn strip_thread_id_spec(s: Seq<char>) -> Seq<char> {
    if is_prefix_of("ThreadId("@, s) {
        without_closing(s.skip("ThreadId("@.len() as int))
    } else {
        without_closing(s)
    }
}

/// Strip the runtime's wrapper punctuation from a thread id's debug
/// rendering.
pub fn strip_thread_id(s: &str) -> (r: String)
    ensures
        r@ == strip_thread_id_spec(s@),
{
    proof {
        reveal_strlit("ThreadId(");
    }
    let has = str_starts_with(s, "ThreadId(");
    let len = s.unicode_len();
    let start: usize = if has {
        9
    } else {
        0
    };
    let mut r = String::new();
    let mut i = start;
    proof {
        assert(r@ + without_closing(s@.skip(i as int)) =~= without_closing(s@.skip(start as int)));
    }
    while i < len
        invariant
            start <= i <= len,
            len == s@.len(),
            r@ + without_closing(s@.skip(i as int)) == without_closing(s@.skip(start as int)),
        decreases len - i,
    {
        let c = s.get_char(i);
        proof {
            assert(s@.skip(i as int).len() > 0);
            assert(s@.skip(i as int)[0] == s@[i as int]);
            assert(s@.skip(i as int).drop_first() =~= s@.skip(i as int + 1));
        }
        if c != ')' {
            push_char(&mut r, c);
        }
        i = i + 1;
        proof {
            assert(r@ + without_closing(s@.skip(i as int)) =~= without_closing(
                s@.skip(start as int),
            ));
        }
    }
    proof {
        assert(s@.skip(len as int) =~= Seq::<char>::empty());
        assert(r@ =~= without_closing(s@.skip(start as int)));
        if has == false {
            assert(s@.skip(0) =~= s@);
        }
        assert(r@ =~= strip_thread_id_spec(s@));
    }
    r
}

} // verus!
