//! Verified text utilities: right-trimming, decimal rendering of line
//! numbers, left-padding, and path normalization.

use vstd::prelude::*;
use vstd::string::*;

verus! {

/// Unicode whitespace, as `char::is_whitespace` decides it.
pub uninterp spec fn is_space_char(c: char) -> bool;

/// Relies on `char::is_whitespace`: true exactly for characters with the
/// Unicode `White_Space` property. The property depends on the character
/// alone; in ASCII it holds of 0x09..=0x0D and 0x20, so printable ASCII
/// characters above 0x20 are never whitespace.
#[verifier::external_body]
fn char_is_whitespace(c: char) -> (r: bool)
    ensures
        r == is_space_char(c),
        (c == ' ' || c == '\t' || c == '\n' || c == '\r') ==> r,
        ((c as u32) > 0x20 && (c as u32) < 0x7f) ==> !r,
{
    c.is_whitespace()
}

/// `s` with every trailing whitespace character removed.
pub open spec fn trim_end_spec(s: Seq<char>) -> Seq<char>
    decreases s.len(),
{
    if s.len() == 0 {
        s
    } else if is_space_char(s.last()) {
        trim_end_spec(s.drop_last())
    } else {
        s
    }
}

/// Right-trim `s` of trailing whitespace.
pub fn trimmed_end(s: &str) -> (r: String)
    ensures
        r@ == trim_end_spec(s@),
{
    let mut n: usize = s.unicode_len();
    proof {
        assert(s@.subrange(0, n as int) =~= s@);
    }
    while n > 0 && char_is_whitespace(s.get_char(n - 1))
        invariant
            n <= s@.len(),
            trim_end_spec(s@) == trim_end_spec(s@.subrange(0, n as int)),
        decreases n,
    {
        proof {
            assert(s@.subrange(0, n as int).drop_last() =~= s@.subrange(0, n - 1));
        }
        n = n - 1;
    }
    let r = String::from_str(s.substring_char(0, n));
    proof {
        if n == 0 {
            assert(trim_end_spec(s@.subrange(0, 0)) =~= s@.subrange(0, 0));
        }
        assert(r@ == trim_end_spec(s@));
    }
    r
}

/// The decimal digit character for `d < 10`.
pub open spec fn digit_char(d: nat) -> char {
    if d == 0 {
        '0'
    } else if d == 1 {
        '1'
    } else if d == 2 {
        '2'
    } else if d == 3 {
        '3'
    } else if d == 4 {
        '4'
    } else if d == 5 {
        '5'
    } else if d == 6 {
        '6'
    } else if d == 7 {
        '7'
    } else if d == 8 {
        '8'
    } else {
        '9'
    }
}

/// The decimal rendering of `n`, most significant digit first.
pub open spec fn dec_str(n: nat) -> Seq<char>
    decreases n,
{
    if n < 10 {
        seq![digit_char(n)]
    } else {
        dec_str(n / 10).push(digit_char(n % 10))
    }
}

fn digit_str(d: usize) -> (r: &'static str)
    requires
        d < 10,
    ensures
        r@ == seq![digit_char(d as nat)],
{
    if d == 0 {
        proof {
            reveal_strlit("0");
            assert("0"@ =~= seq![digit_char(0)]);
        }
        "0"
    } else if d == 1 {
        proof {
            reveal_strlit("1");
            assert("1"@ =~= seq![digit_char(1)]);
        }
        "1"
    } else if d == 2 {
        proof {
            reveal_strlit("2");
            assert("2"@ =~= seq![digit_char(2)]);
        }
        "2"
    } else if d == 3 {
        proof {
            reveal_strlit("3");
            assert("3"@ =~= seq![digit_char(3)]);
        }
        "3"
    } else if d == 4 {
        proof {
            reveal_strlit("4");
            assert("4"@ =~= seq![digit_char(4)]);
        }
        "4"
    } else if d == 5 {
        proof {
            reveal_strlit("5");
            assert("5"@ =~= seq![digit_char(5)]);
        }
        "5"
    } else if d == 6 {
        proof {
            reveal_strlit("6");
            assert("6"@ =~= seq![digit_char(6)]);
        }
        "6"
    } else if d == 7 {
        proof {
            reveal_strlit("7");
            assert("7"@ =~= seq![digit_char(7)]);
        }
        "7"
    } else if d == 8 {
        proof {
            reveal_strlit("8");
            assert("8"@ =~= seq![digit_char(8)]);
        }
        "8"
    } else {
        proof {
            reveal_strlit("9");
            assert("9"@ =~= seq![digit_char(9)]);
        }
        "9"
    }
}

/// Render `n` in decimal.
pub fn usize_to_string(n: usize) -> (r: String)
    ensures
        r@ == dec_str(n as nat),
    decreases n,
{
    if n < 10 {
        String::from_str(digit_str(n))
    } else {
        let s = usize_to_string(n / 10);
        let r = s.concat(digit_str(n % 10));
        proof {
            assert(r@ =~= dec_str((n / 10) as nat).push(digit_char((n % 10) as nat)));
        }
        r
    }
}

/// `n` space characters.
pub open spec fn spaces(n: nat) -> Seq<char>
    decreases n,
{
    if n == 0 {
        Seq::empty()
    } else {
        spaces((n - 1) as nat).push(' ')
    }
}

fn spaces_string(n: usize) -> (r: String)
    ensures
        r@ == spaces(n as nat),
{
    let mut out = String::new();
    let mut i: usize = 0;
    while i < n
        invariant
            i <= n,
            out@ == spaces(i as nat),
        decreases n - i,
    {
        out.append(" ");
        proof {
            reveal_strlit(" ");
            assert(spaces((i + 1) as nat).drop_last() =~= spaces(i as nat));
            assert(out@ =~= spaces(i as nat).push(' '));
        }
        i = i + 1;
    }
    out
}

/// A run of `n` spaces is `n` characters long.
pub proof fn lemma_spaces_len(n: nat)
    ensures
        spaces(n).len() == n,
    decreases n,
{
    if n > 0 {
        lemma_spaces_len((n - 1) as nat);
    }
}

/// `s`, left-padded with spaces to width `w`; `s` itself if already as wide.
pub open spec fn left_pad(s: Seq<char>, w: nat) -> Seq<char> {
    if s.len() >= w {
        s
    } else {
        spaces((w - s.len()) as nat) + s
    }
}

/// Left-pad `s` with spaces to width `w`.
pub fn left_padded(s: &str, w: usize) -> (r: String)
    ensures
        r@ == left_pad(s@, w as nat),
{
    let n = s.unicode_len();
    if n >= w {
        String::from_str(s)
    } else {
        spaces_string(w - n).concat(s)
    }
}

/// Padding a text that is at least as long pads to a result at least as
/// long.
pub proof fn lemma_left_pad_len_mono(a: Seq<char>, b: Seq<char>, w: nat)
    requires
        a.len() <= b.len(),
    ensures
        left_pad(a, w).len() <= left_pad(b, w).len(),
{
    if a.len() < w {
        lemma_spaces_len((w - a.len()) as nat);
    }
    if b.len() < w {
        lemma_spaces_len((w - b.len()) as nat);
    }
}

/// `s` with backslash separators replaced by forward slashes.
pub open spec fn replace_backslashes(s: Seq<char>) -> Seq<char> {
    Seq::new(s.len(), |i: int| if s[i] == '\\' { '/' } else { s[i] })
}

/// The normalized form of a path: backslashes become forward slashes, then a
/// single leading slash is stripped.
pub open spec fn norm_path(s: Seq<char>) -> Seq<char> {
    let t = replace_backslashes(s);
    if t.len() > 0 && t[0] == '/' {
        t.drop_first()
    } else {
        t
    }
}

/// Normalize a path for both disk access and display: replace backslash
/// separators with forward slashes, then strip a single leading slash.
pub fn normalize_path(s: &str) -> (r: String)
    ensures
        r@ == norm_path(s@),
{
    let n = s.unicode_len();
    let mut rep = String::new();
    let mut i: usize = 0;
    while i < n
        invariant
            i <= n,
            n == s@.len(),
            rep@ == replace_backslashes(s@).subrange(0, i as int),
        decreases n - i,
    {
        let c = s.get_char(i);
        if c == '\\' {
            rep.append("/");
            proof {
                reveal_strlit("/");
            }
        } else {
            rep.append(s.substring_char(i, i + 1));
        }
        proof {
            assert(rep@ =~= replace_backslashes(s@).subrange(0, i + 1));
        }
        i = i + 1;
    }
    proof {
        assert(rep@ =~= replace_backslashes(s@));
    }
    let len = rep.as_str().unicode_len();
    if len > 0 && rep.as_str().get_char(0) == '/' {
        let r = String::from_str(rep.as_str().substring_char(1, len));
        proof {
            assert(r@ =~= norm_path(s@));
        }
        r
    } else {
        rep
    }
}

/// A normalized path contains no backslash: every separator has become a
/// forward slash.
pub proof fn lemma_norm_path_no_backslash(s: Seq<char>, i: int)
    requires
        0 <= i < norm_path(s).len(),
    ensures
        norm_path(s)[i] != '\\',
{
}

/// Normalizing a path that already uses forward slashes in place of its
/// backslashes gives the same result as normalizing the original: the two
/// spellings resolve and display as one path.
pub proof fn lemma_norm_path_of_forward_slashes(s: Seq<char>)
    ensures
        norm_path(replace_backslashes(s)) == norm_path(s),
{
    assert(replace_backslashes(replace_backslashes(s)) =~= replace_backslashes(s));
}

/// The concatenation of a sequence of character sequences, in order.
pub open spec fn concat_all(rows: Seq<Seq<char>>) -> Seq<char>
    decreases rows.len(),
{
    if rows.len() == 0 {
        Seq::empty()
    } else {
        rows[0] + concat_all(rows.drop_first())
    }
}

/// Appending one more row extends the concatenation at the end.
pub proof fn lemma_concat_all_push(rows: Seq<Seq<char>>, row: Seq<char>)
    ensures
        concat_all(rows.push(row)) == concat_all(rows) + row,
    decreases rows.len(),
{
    if rows.len() == 0 {
        assert(rows.push(row).drop_first() =~= Seq::<Seq<char>>::empty());
        assert(concat_all(Seq::<Seq<char>>::empty()) == Seq::<char>::empty());
        assert(concat_all(rows.push(row)) == row + Seq::<char>::empty());
        assert(row + Seq::<char>::empty() =~= row);
        assert(concat_all(rows) + row =~= row);
    } else {
        assert(rows.push(row).drop_first() =~= rows.drop_first().push(row));
        lemma_concat_all_push(rows.drop_first(), row);
        assert(concat_all(rows.push(row)) == rows[0] + (concat_all(rows.drop_first()) + row));
        assert(rows[0] + (concat_all(rows.drop_first()) + row) =~= (rows[0] + concat_all(
            rows.drop_first(),
        )) + row);
        assert(concat_all(rows.push(row)) =~= concat_all(rows) + row);
    }
}

} // verus!
