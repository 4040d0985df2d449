use pad::PadStr;
use vstd::prelude::*;
use vstd::string::*;

verus! {

/// `n` spaces (none for a negative count).
pub open spec fn spaces(n: int) -> Seq<char> {
    Seq::new(if n < 0 { 0 } else { n as nat }, |i: int| ' ')
}

/// `s` padded with spaces on the right up to `width` characters; `s` itself
/// when it is already that wide.
pub open spec fn pad_to(s: Seq<char>, width: int) -> Seq<char> {
    if s.len() >= width {
        s
    } else {
        s + spaces(width - s.len())
    }
}

/// Pad `s` with spaces on the right to at least `width` characters.
pub fn pad_to_width(s: &str, width: usize) -> (r: String)
    ensures
        r@ == pad_to(s@, width as int),
{
    let mut r = String::from_str(s);
    let mut n = s.unicode_len();
    proof {
        assert(r@ =~= s@ + spaces(n - s@.len()));
    }
    while n < width
        invariant
            n >= s@.len(),
            n <= width || n == s@.len(),
            r@ == s@ + spaces(n - s@.len()),
        decreases width - n,
    {
        r.append(" ");
        proof {
            reveal_strlit(" ");
            assert(" "@ =~= seq![' ']);
            assert(s@ + spaces(n - s@.len()) + " "@ =~= s@ + spaces(n + 1 - s@.len()));
        }
        n = n + 1;
    }
    proof {
        assert(s@ + spaces(0) =~= s@);
        assert(r@ =~= pad_to(s@, width as int));
    }
    r
}

/// The character for one decimal digit.
pub open spec fn digit_char(d: int) -> char {
    if d == 0 {
        '0'
    } else if d == 1 {
        '1'
    } else if d == 2 {
        '2'
    } else if d == 3 {
        '3'
    } else if d == 4 {
        '4'
    } else if d == 5 {
        '5'
    } else if d == 6 {
        '6'
    } else if d == 7 {
        '7'
    } else if d == 8 {
        '8'
    } else {
        '9'
    }
}

/// The decimal digits of `n`, most significant first.
pub open spec fn dec_str(n: nat) -> Seq<char>
    decreases n,
{
    if n < 10 {
        seq![digit_char(n as int)]
    } else {
        dec_str(n / 10).push(digit_char((n % 10) as int))
    }
}

/// The one-character text for a decimal digit.
fn digit_str(d: usize) -> (r: &'static str)
    requires
        d < 10,
    ensures
        r@ == seq![digit_char(d as int)],
{
    let r: &'static str = if d == 0 {
        "0"
    } else if d == 1 {
        "1"
    } else if d == 2 {
        "2"
    } else if d == 3 {
        "3"
    } else if d == 4 {
        "4"
    } else if d == 5 {
        "5"
    } else if d == 6 {
        "6"
    } else if d == 7 {
        "7"
    } else if d == 8 {
        "8"
    } else {
        "9"
    };
    proof {
        reveal_strlit("0");
        reveal_strlit("1");
        reveal_strlit("2");
        reveal_strlit("3");
        reveal_strlit("4");
        reveal_strlit("5");
        reveal_strlit("6");
        reveal_strlit("7");
        reveal_strlit("8");
        reveal_strlit("9");
        assert(r@ =~= seq![digit_char(d as int)]);
    }
    r
}

/// The decimal digits of `n`, most significant first.
pub fn usize_to_string(n: usize) -> (r: String)
    ensures
        r@ == dec_str(n as nat),
    decreases n,
{
    if n < 10 {
        String::from_str(digit_str(n))
    } else {
        let mut s = usize_to_string(n / 10);
        s.append(digit_str(n % 10));
        proof {
            assert(dec_str((n / 10) as nat) + seq![digit_char((n % 10) as int)] =~= dec_str(
                n as nat,
            ));
        }
        s
    }
}

/// `s` with every NUL character removed.  A curses backend hands text to the
/// terminal as a C string, which cannot carry an interior NUL.
pub open spec fn without_nul(s: Seq<char>) -> Seq<char>
    decreases s.len(),
{
    if s.len() == 0 {
        Seq::<char>::empty()
    } else if s[0] == '\0' {
        without_nul(s.skip(1))
    } else {
        seq![s[0]] + without_nul(s.skip(1))
    }
}

/// Removing NUL commutes with appending one character.
pub proof fn lemma_without_nul_push(s: Seq<char>, c: char)
    ensures
        without_nul(s.push(c)) == without_nul(s) + (if c == '\0' {
            Seq::<char>::empty()
        } else {
            seq![c]
        }),
    decreases s.len(),
{
    let tail: Seq<char> = if c == '\0' {
        Seq::<char>::empty()
    } else {
        seq![c]
    };
    if s.len() == 0 {
        assert(s.push(c)[0] == c);
        assert(s.push(c).skip(1) =~= Seq::<char>::empty());
        assert(without_nul(Seq::<char>::empty()) =~= Seq::<char>::empty());
        assert(without_nul(s.push(c)) =~= tail);
        assert(without_nul(s) + tail =~= tail);
    } else {
        assert(s.push(c)[0] == s[0]);
        assert(s.push(c).skip(1) =~= s.skip(1).push(c));
        lemma_without_nul_push(s.skip(1), c);
        if s[0] == '\0' {
        } else {
            assert(seq![s[0]] + (without_nul(s.skip(1)) + tail) =~= (seq![s[0]] + without_nul(
                s.skip(1),
            )) + tail);
        }
    }
}

/// The result of removing NUL holds no NUL.
pub proof fn lemma_without_nul_free(s: Seq<char>)
    ensures
        forall|i: int| 0 <= i < without_nul(s).len() ==> without_nul(s)[i] != '\0',
    decreases s.len(),
{
    if s.len() == 0 {
        assert(without_nul(s) =~= Seq::<char>::empty());
    } else {
        lemma_without_nul_free(s.skip(1));
        let r = without_nul(s.skip(1));
        if s[0] == '\0' {
            assert(without_nul(s) == r);
        } else {
            assert(without_nul(s) == seq![s[0]] + r);
            assert forall|i: int| 0 <= i < without_nul(s).len() implies without_nul(s)[i]
                != '\0' by {
                if i == 0 {
                    assert(without_nul(s)[0] == s[0]);
                } else {
                    assert(without_nul(s)[i] == r[i - 1]);
                }
            }
        }
    }
}

/// Copy `s` with every NUL character removed.
pub fn strip_nul(s: &str) -> (r: String)
    ensures
        r@ == without_nul(s@),
{
    let n = s.unicode_len();
    let mut r = String::new();
    let mut i: usize = 0;
    proof {
        assert(s@.take(0) =~= Seq::<char>::empty());
    }
    while i < n
        invariant
            i <= n,
            n == s@.len(),
            r@ == without_nul(s@.take(i as int)),
        decreases n - i,
    {
        let c = s.get_char(i);
        proof {
            assert(s@.take(i as int + 1) =~= s@.take(i as int).push(s@[i as int]));
            lemma_without_nul_push(s@.take(i as int), s@[i as int]);
        }
        if c != '\0' {
            let piece = s.substring_char(i, i + 1);
            proof {
                assert(piece@ =~= seq![s@[i as int]]);
            }
            r.append(piece);
        } else {
            proof {
                assert(without_nul(s@.take(i as int)) + Seq::<char>::empty() =~= without_nul(
                    s@.take(i as int),
                ));
            }
        }
        i = i + 1;
    }
    proof {
        assert(s@.take(n as int) =~= s@);
    }
    r
}

/// What `pad::PadStr::pad_to_width_with_alignment` returns for a text, a
/// target width and an alignment (`right` true aligns the text to the right).
/// The padding is computed from the text's display width, so the result is a
/// function of the arguments alone.
pub uninterp spec fn padded(s: Seq<char>, width: int, right: bool) -> Seq<char>;

/// Relies on `pad::PadStr::pad_to_width_with_alignment` (pad crate): pads the
/// text with spaces to the target display width, on the left for right
/// alignment and on the right for left alignment; returns the text unchanged
/// when it is already wide enough.
#[verifier::external_body]
pub fn pad_aligned(s: &str, width: usize, right: bool) -> (r: String)
    ensures
        r@ == padded(s@, width as int, right),
{
    s.pad_to_width_with_alignment(
        width,
        if right {
            pad::Alignment::Right
        } else {
            pad::Alignment::Left
        },
    )
}

/// `s` split at each occurrence of `sep`, but at most `n` times: the result
/// has one part per separator consumed plus the unsplit rest, so it has
/// `n + 1` parts exactly when `s` holds at least `n` separators.
pub open spec fn split_n(s: Seq<char>, sep: char, n: nat) -> Seq<Seq<char>>
    decreases s.len(),
{
    if n == 0 {
        seq![s]
    } else if s.len() == 0 {
        seq![s]
    } else if s[0] == sep {
        seq![Seq::<char>::empty()] + split_n(s.skip(1), sep, (n - 1) as nat)
    } else {
        let r = split_n(s.skip(1), sep, n);
        seq![seq![s[0]] + r[0]] + r.skip(1)
    }
}

pub proof fn lemma_split_n_len(s: Seq<char>, sep: char, n: nat)
    ensures
        1 <= split_n(s, sep, n).len() <= n + 1,
    decreases s.len(),
{
    if n == 0 || s.len() == 0 {
    } else if s[0] == sep {
        lemma_split_n_len(s.skip(1), sep, (n - 1) as nat);
    } else {
        lemma_split_n_len(s.skip(1), sep, n);
    }
}

/// Splitting a text whose first separator stands at `i` takes the prefix
/// before `i` and splits the rest one time fewer.
pub proof fn lemma_split_n_sep(s: Seq<char>, sep: char, n: nat, i: int)
    requires
        n >= 1,
        0 <= i < s.len(),
        s[i] == sep,
        forall|j: int| 0 <= j < i ==> s[j] != sep,
    ensures
        split_n(s, sep, n) == seq![s.take(i)] + split_n(s.skip(i + 1), sep, (n - 1) as nat),
    decreases i,
{
    if i == 0 {
        assert(s.take(0) =~= Seq::<char>::empty());
        assert(split_n(s, sep, n) =~= seq![s.take(0)] + split_n(s.skip(1), sep, (n - 1) as nat));
    } else {
        let t = s.skip(1);
        assert(t[i - 1] == sep);
        assert(forall|j: int| 0 <= j < i - 1 ==> t[j] != sep);
        lemma_split_n_sep(t, sep, n, i - 1);
        lemma_split_n_len(t.skip(i), sep, (n - 1) as nat);
        let r = split_n(t, sep, n);
        assert(r == seq![t.take(i - 1)] + split_n(t.skip(i), sep, (n - 1) as nat));
        assert(r[0] == t.take(i - 1));
        assert(seq![s[0]] + t.take(i - 1) =~= s.take(i));
        assert(r.skip(1) =~= split_n(t.skip(i), sep, (n - 1) as nat));
        assert(t.skip(i) =~= s.skip(i + 1));
        assert(split_n(s, sep, n) == seq![seq![s[0]] + r[0]] + r.skip(1));
    }
}

/// Splitting a text without the separator leaves it whole.
pub proof fn lemma_split_n_no_sep(s: Seq<char>, sep: char, n: nat)
    requires
        forall|j: int| 0 <= j < s.len() ==> s[j] != sep,
    ensures
        split_n(s, sep, n) == seq![s],
    decreases s.len(),
{
    if n == 0 || s.len() == 0 {
    } else {
        let t = s.skip(1);
        assert(forall|j: int| 0 <= j < t.len() ==> t[j] != sep);
        lemma_split_n_no_sep(t, sep, n);
        let r = split_n(t, sep, n);
        assert(r[0] == t);
        assert(seq![s[0]] + t =~= s);
        assert(r.skip(1) =~= Seq::<Seq<char>>::empty());
        assert(split_n(s, sep, n) =~= seq![s]);
    }
}

/// First occurrence of `sep` in `s` at or after `start`, if any.
pub fn find_char_from(s: &str, start: usize, len: usize, sep: char) -> (r: Option<usize>)
    requires
        start <= len,
        len == s@.len(),
    ensures
        match r {
            Some(i) => start <= i < len && s@[i as int] == sep && (forall|j: int|
                start <= j < i ==> s@[j] != sep),
            None => forall|j: int| start <= j < len ==> s@[j] != sep,
        },
{
    let mut i = start;
    while i < len
        invariant
            start <= i <= len,
            len == s@.len(),
            forall|j: int| start <= j < i ==> s@[j] != sep,
        decreases len - i,
    {
        if s.get_char(i) == sep {
            return Some(i);
        }
        i = i + 1;
    }
    None
}

/// Split `s` at each occurrence of `sep`, at most `max_seps` times; the last
/// part is the unsplit rest.
pub fn split_record(s: &str, sep: char, max_seps: usize) -> (parts: Vec<String>)
    ensures
        parts.deep_view() == split_n(s@, sep, max_seps as nat),
        parts@.len() >= 1,
{
    let len = s.unicode_len();
    let mut parts: Vec<String> = Vec::new();
    let mut start: usize = 0;
    let mut seps: usize = 0;
    proof {
        assert(s@.skip(0) =~= s@);
        assert(parts.deep_view() + split_n(s@, sep, max_seps as nat) =~= split_n(
            s@,
            sep,
            max_seps as nat,
        ));
    }
    loop
        invariant
            start <= len,
            len == s@.len(),
            seps <= max_seps,
            split_n(s@, sep, max_seps as nat) == parts.deep_view() + split_n(
                s@.skip(start as int),
                sep,
                (max_seps - seps) as nat,
            ),
        ensures
            start <= len,
            len == s@.len(),
            split_n(s@, sep, max_seps as nat) == parts.deep_view() + seq![
                s@.skip(start as int),
            ],
        decreases max_seps - seps,
    {
        if seps >= max_seps {
            break ;
        }
        match find_char_from(s, start, len, sep) {
            Some(i) => {
                let piece = String::from_str(s.substring_char(start, i));
                let ghost old_parts = parts.deep_view();
                let ghost rest = s@.skip(start as int);
                proof {
                    assert(rest[i - start] == s@[i as int]);
                    assert(forall|j: int| 0 <= j < i - start ==> rest[j] == s@[j + start]);
                    lemma_split_n_sep(rest, sep, (max_seps - seps) as nat, i - start);
                    assert(rest.take(i - start) =~= s@.subrange(start as int, i as int));
                    assert(rest.skip(i - start + 1) =~= s@.skip(i + 1));
                }
                parts.push(piece);
                proof {
                    assert(parts.deep_view() =~= old_parts.push(piece@));
                    assert(old_parts.push(rest.take(i - start)) + split_n(
                        s@.skip(i + 1),
                        sep,
                        (max_seps - seps - 1) as nat,
                    ) =~= old_parts + (seq![rest.take(i - start)] + split_n(
                        s@.skip(i + 1),
                        sep,
                        (max_seps - seps - 1) as nat,
                    )));
                }
                start = i + 1;
                seps = seps + 1;
            },
            None => {
                proof {
                    let rest = s@.skip(start as int);
                    assert(forall|j: int| 0 <= j < rest.len() ==> rest[j] == s@[j + start]);
                    lemma_split_n_no_sep(rest, sep, (max_seps - seps) as nat);
                }
                break ;
            },
        }
    }
    let tail = String::from_str(s.substring_char(start, len));
    let ghost old_parts = parts.deep_view();
    proof {
        assert(s@.subrange(start as int, len as int) =~= s@.skip(start as int));
    }
    parts.push(tail);
    proof {
        assert(parts.deep_view() =~= old_parts.push(tail@));
        assert(old_parts.push(s@.skip(start as int)) =~= old_parts + seq![
            s@.skip(start as int),
        ]);
    }
    parts
}

} // verus!
