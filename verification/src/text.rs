//! Character-level helpers for the comma-separated lists of the configuration.

use vstd::prelude::*;
use vstd::std_specs::iter::IteratorSpec;

verus! {

/// The characters that count as white space when a list item is trimmed.
pub open spec fn is_space(c: char) -> bool {
    let n = c as u32;
    ||| 0x09 <= n <= 0x0d
    ||| n == 0x20
    ||| n == 0x85
    ||| n == 0xa0
    ||| n == 0x1680
    ||| 0x2000 <= n <= 0x200a
    ||| n == 0x2028
    ||| n == 0x2029
    ||| n == 0x202f
    ||| n == 0x205f
    ||| n == 0x3000
}

/// Executable form of [`is_space`].
pub fn char_is_space(c: char) -> (b: bool)
    ensures
        b == is_space(c),
{
    let n: u32 = c as u32;
    (0x09 <= n && n <= 0x0d) || n == 0x20 || n == 0x85 || n == 0xa0 || n == 0x1680 || (0x2000 <= n
        && n <= 0x200a) || n == 0x2028 || n == 0x2029 || n == 0x202f || n == 0x205f || n == 0x3000
}

/// The characters of a string slice, in order.
pub fn chars_of(s: &str) -> (v: Vec<char>)
    ensures
        v@ == s@,
{
    let mut v: Vec<char> = Vec::new();
    let mut it = s.chars();
    loop
        invariant
            it.obeys_prophetic_iter_laws(),
            it.decrease() is Some,
            v@ + it.remaining() == s@,
        decreases it.decrease()->0,
    {
        match it.next() {
            Some(c) => {
                v.push(c);
                assert(v@ + it.remaining() =~= s@);
            },
            None => {
                assert(v@ =~= s@);
                return v;
            },
        }
    }
}

/// What is left of `s` once the white space at its front is dropped.
pub open spec fn trim_front(s: Seq<char>) -> Seq<char>
    decreases s.len(),
{
    if s.len() > 0 && is_space(s[0]) {
        trim_front(s.drop_first())
    } else {
        s
    }
}

/// What is left of `s` once the white space at its end is dropped.
pub open spec fn trim_back(s: Seq<char>) -> Seq<char>
    decreases s.len(),
{
    if s.len() > 0 && is_space(s.last()) {
        trim_back(s.drop_last())
    } else {
        s
    }
}

/// `s` without white space at either end.
pub open spec fn trimmed(s: Seq<char>) -> Seq<char> {
    trim_back(trim_front(s))
}

/// The pieces of `s` between occurrences of `sep`. There is always at least
/// one piece; an empty input gives one empty piece.
pub open spec fn split(s: Seq<char>, sep: char) -> Seq<Seq<char>>
    decreases s.len(),
{
    let k = s.index_of_first(sep);
    match k {
        Some(i) => if 0 <= i < s.len() {
            seq![s.subrange(0, i)] + split(s.subrange(i + 1, s.len() as int), sep)
        } else {
            seq![s]
        },
        None => seq![s],
    }
}

/// A piece that holds no separator is the only piece of itself.
pub proof fn lemma_split_without_sep(s: Seq<char>, sep: char)
    requires
        !s.contains(sep),
    ensures
        split(s, sep) == seq![s],
{
    s.index_of_first_ensures(sep);
}

/// Where the first separator stands at `i`, the first piece is what precedes
/// it and the other pieces are those of what follows it.
pub proof fn lemma_split_at_first_sep(s: Seq<char>, sep: char, i: int)
    requires
        0 <= i < s.len(),
        s[i] == sep,
        forall|j: int| 0 <= j < i ==> s[j] != sep,
    ensures
        split(s, sep) == seq![s.subrange(0, i)] + split(s.subrange(i + 1, s.len() as int), sep),
{
    s.index_of_first_ensures(sep);
    assert(s.contains(sep));
}

/// The pieces of two texts joined by a separator are the pieces of the
/// first followed by the pieces of the second.
pub proof fn lemma_split_joined(a: Seq<char>, b: Seq<char>, sep: char)
    ensures
        split(a + seq![sep] + b, sep) == split(a, sep) + split(b, sep),
    decreases a.len(),
{
    let s = a + seq![sep] + b;
    a.index_of_first_ensures(sep);
    match a.index_of_first(sep) {
        Some(i) => {
            let head = a.subrange(0, i);
            let tail = a.subrange(i + 1, a.len() as int);
            assert(s[i] == a[i]);
            assert forall|j: int| 0 <= j < i implies s[j] != sep by {
                assert(s[j] == a[j]);
            }
            lemma_split_at_first_sep(s, sep, i);
            lemma_split_at_first_sep(a, sep, i);
            assert(s.subrange(0, i) =~= head);
            assert(s.subrange(i + 1, s.len() as int) =~= tail + seq![sep] + b);
            lemma_split_joined(tail, b, sep);
            assert(seq![head] + (split(tail, sep) + split(b, sep)) =~= (seq![head] + split(
                tail,
                sep,
            )) + split(b, sep));
        },
        None => {
            let n = a.len() as int;
            assert(!a.contains(sep));
            assert forall|j: int| 0 <= j < n implies s[j] != sep by {
                assert(s[j] == a[j]);
                assert(a.contains(a[j]));
            }
            assert(s[n] == sep);
            lemma_split_at_first_sep(s, sep, n);
            lemma_split_without_sep(a, sep);
            assert(s.subrange(0, n) =~= a);
            assert(s.subrange(n + 1, s.len() as int) =~= b);
        },
    }
}

/// The text of each string of a list.
pub open spec fn texts(v: Seq<String>) -> Seq<Seq<char>> {
    v.map_values(|x: String| x@)
}

/// `s` without white space at either end.
pub fn trim(s: &str) -> (r: &str)
    ensures
        r@ == trimmed(s@),
{
    let chars = chars_of(s);
    let n: usize = chars.len();
    let mut a: usize = 0;
    assert(s@.subrange(0, n as int) =~= s@);
    while a < n && char_is_space(chars[a])
        invariant
            chars@ == s@,
            n == chars@.len(),
            a <= n,
            trim_front(s@) == trim_front(s@.subrange(a as int, n as int)),
        decreases n - a,
    {
        proof {
            let cur = s@.subrange(a as int, n as int);
            assert(cur.drop_first() =~= s@.subrange(a + 1, n as int));
        }
        a = a + 1;
    }
    let mut b: usize = n;
    while b > a && char_is_space(chars[b - 1])
        invariant
            chars@ == s@,
            n == chars@.len(),
            a <= b <= n,
            trim_front(s@) == s@.subrange(a as int, n as int),
            trimmed(s@) == trim_back(s@.subrange(a as int, b as int)),
        decreases b,
    {
        proof {
            let cur = s@.subrange(a as int, b as int);
            assert(cur.drop_last() =~= s@.subrange(a as int, b - 1));
        }
        b = b - 1;
    }
    s.substring_char(a, b)
}

/// The pieces of `s` between occurrences of `sep`, as owned strings.
pub fn split_on(s: &str, sep: char) -> (out: Vec<String>)
    ensures
        texts(out@) == split(s@, sep),
{
    let chars = chars_of(s);
    let n: usize = chars.len();
    let mut out: Vec<String> = Vec::new();
    let mut start: usize = 0;
    let mut i: usize = 0;
    assert(s@.subrange(0, n as int) =~= s@);
    assert(texts(out@) =~= Seq::<Seq<char>>::empty());
    while i < n
        invariant
            chars@ == s@,
            n == chars@.len(),
            start <= i <= n,
            forall|j: int| start <= j < i ==> s@[j] != sep,
            split(s@, sep) == texts(out@) + split(s@.subrange(start as int, n as int), sep),
        decreases n - i,
    {
        if chars[i] == sep {
            let piece = s.substring_char(start, i).to_owned();
            proof {
                let rest = s@.subrange(start as int, n as int);
                lemma_split_at_first_sep(rest, sep, i - start);
                assert(rest.subrange(0, i - start) =~= s@.subrange(start as int, i as int));
                assert(rest.subrange(i - start + 1, rest.len() as int) =~= s@.subrange(
                    i + 1,
                    n as int,
                ));
                assert(texts(out@.push(piece)) =~= texts(out@) + seq![piece@]);
            }
            out.push(piece);
            start = i + 1;
        }
        i = i + 1;
    }
    let piece = s.substring_char(start, n).to_owned();
    proof {
        let rest = s@.subrange(start as int, n as int);
        assert(!rest.contains(sep));
        lemma_split_without_sep(rest, sep);
        assert(texts(out@.push(piece)) =~= texts(out@) + seq![piece@]);
    }
    out.push(piece);
    out
}

/// The lower-case form of a string as the standard library computes it.
pub uninterp spec fn lowercase_of(s: Seq<char>) -> Seq<char>;

/// Lower case of one character of the ASCII range; other characters are kept.
pub open spec fn ascii_lower(c: char) -> char {
    if 0x41 <= c as u32 <= 0x5a {
        ((c as u32 + 0x20) as u8) as char
    } else {
        c
    }
}

/// Whether every character of `s` is in the ASCII range.
pub open spec fn all_ascii(s: Seq<char>) -> bool {
    forall|i: int| 0 <= i < s.len() ==> (#[trigger] s[i]) as u32 <= 0x7f
}

/// `s` with each of `A` to `Z` replaced by its lower-case letter.
pub open spec fn ascii_lowered(s: Seq<char>) -> Seq<char> {
    s.map_values(|c: char| ascii_lower(c))
}

/// Trimming leaves a text of ASCII characters within the ASCII range.
pub proof fn lemma_trimmed_ascii(s: Seq<char>)
    requires
        all_ascii(s),
    ensures
        all_ascii(trim_front(s)),
        all_ascii(trim_back(s)),
        all_ascii(trimmed(s)),
    decreases s.len(),
{
    if s.len() > 0 {
        assert forall|i: int| 0 <= i < s.drop_first().len() implies (#[trigger] s.drop_first()[i]) as u32
            <= 0x7f by {
            assert(s.drop_first()[i] == s[i + 1]);
        }
        assert forall|i: int| 0 <= i < s.drop_last().len() implies (#[trigger] s.drop_last()[i]) as u32
            <= 0x7f by {
            assert(s.drop_last()[i] == s[i]);
        }
        lemma_trimmed_ascii(s.drop_first());
        lemma_trimmed_ascii(s.drop_last());
    }
    lemma_trim_back_ascii(trim_front(s));
}

/// Dropping white space at the end keeps a text within the ASCII range.
pub proof fn lemma_trim_back_ascii(s: Seq<char>)
    requires
        all_ascii(s),
    ensures
        all_ascii(trim_back(s)),
    decreases s.len(),
{
    if s.len() > 0 {
        assert forall|i: int| 0 <= i < s.drop_last().len() implies (#[trigger] s.drop_last()[i]) as u32
            <= 0x7f by {
            assert(s.drop_last()[i] == s[i]);
        }
        lemma_trim_back_ascii(s.drop_last());
    }
}

/// Every piece of a text of ASCII characters is within the ASCII range.
pub proof fn lemma_split_ascii(s: Seq<char>, sep: char)
    requires
        all_ascii(s),
    ensures
        forall|i: int| 0 <= i < split(s, sep).len() ==> all_ascii(#[trigger] split(s, sep)[i]),
    decreases s.len(),
{
    match s.index_of_first(sep) {
        Some(k) => {
            if 0 <= k < s.len() {
                let head = s.subrange(0, k);
                let tail = s.subrange(k + 1, s.len() as int);
                assert(all_ascii(head)) by {
                    assert forall|i: int| 0 <= i < head.len() implies (#[trigger] head[i]) as u32
                        <= 0x7f by {
                        assert(head[i] == s[i]);
                    }
                }
                assert(all_ascii(tail)) by {
                    assert forall|i: int| 0 <= i < tail.len() implies (#[trigger] tail[i]) as u32
                        <= 0x7f by {
                        assert(tail[i] == s[i + k + 1]);
                    }
                }
                lemma_split_ascii(tail, sep);
                assert forall|i: int| 0 <= i < split(s, sep).len() implies all_ascii(
                    #[trigger] split(s, sep)[i],
                ) by {
                    if i > 0 {
                        assert(split(s, sep)[i] == split(tail, sep)[i - 1]);
                    }
                }
            }
        },
        None => {},
    }
}

/// Whether two string slices hold the same text.
pub fn same_text(a: &str, b: &str) -> (r: bool)
    ensures
        r == (a@ == b@),
{
    let x = chars_of(a);
    let y = chars_of(b);
    if x.len() != y.len() {
        return false;
    }
    let n: usize = x.len();
    let mut i: usize = 0;
    while i < n
        invariant
            x@ == a@,
            y@ == b@,
            n == x@.len(),
            n == y@.len(),
            i <= n,
            forall|j: int| 0 <= j < i ==> a@[j] == b@[j],
        decreases n - i,
    {
        if x[i] != y[i] {
            return false;
        }
        i = i + 1;
    }
    assert(a@ =~= b@);
    true
}

/// The character of a decimal digit.
pub open spec fn digit_char(d: int) -> char {
    if d == 0 {
        '0'
    } else if d == 1 {
        '1'
    } else if d == 2 {
        '2'
    } else if d == 3 {
        '3'
    } else if d == 4 {
        '4'
    } else if d == 5 {
        '5'
    } else if d == 6 {
        '6'
    } else if d == 7 {
        '7'
    } else if d == 8 {
        '8'
    } else {
        '9'
    }
}

/// A number written in decimal digits, without leading zeros.
pub open spec fn decimal_text(n: nat) -> Seq<char>
    decreases n,
{
    if n < 10 {
        seq![digit_char(n as int)]
    } else {
        decimal_text(n / 10).push(digit_char((n % 10) as int))
    }
}

/// One decimal digit as text.
pub fn digit_str(d: u64) -> (s: &'static str)
    requires
        d < 10,
    ensures
        s@ == seq![digit_char(d as int)],
{
    proof {
        reveal_strlit("0");
        reveal_strlit("1");
        reveal_strlit("2");
        reveal_strlit("3");
        reveal_strlit("4");
        reveal_strlit("5");
        reveal_strlit("6");
        reveal_strlit("7");
        reveal_strlit("8");
        reveal_strlit("9");
    }
    let s = if d == 0 {
        "0"
    } else if d == 1 {
        "1"
    } else if d == 2 {
        "2"
    } else if d == 3 {
        "3"
    } else if d == 4 {
        "4"
    } else if d == 5 {
        "5"
    } else if d == 6 {
        "6"
    } else if d == 7 {
        "7"
    } else if d == 8 {
        "8"
    } else {
        "9"
    };
    assert(s@ =~= seq![digit_char(d as int)]);
    s
}

/// A number written in decimal digits.
pub fn decimal(n: u64) -> (s: String)
    ensures
        s@ == decimal_text(n as nat),
    decreases n,
{
    if n < 10 {
        digit_str(n).to_owned()
    } else {
        let mut s = decimal(n / 10);
        s.append(digit_str(n % 10));
        assert(s@ =~= decimal_text(n as nat));
        s
    }
}

/// Two texts put one after the other.
pub fn join2(a: &str, b: &str) -> (s: String)
    ensures
        s@ == a@ + b@,
{
    let mut s = a.to_owned();
    s.append(b);
    s
}

/// Three texts put one after the other.
pub fn join3(a: &str, b: &str, c: &str) -> (s: String)
    ensures
        s@ == a@ + b@ + c@,
{
    let mut s = a.to_owned();
    s.append(b);
    s.append(c);
    s
}

/// Four texts put one after the other.
pub fn join4(a: &str, b: &str, c: &str, d: &str) -> (s: String)
    ensures
        s@ == a@ + b@ + c@ + d@,
{
    let mut s = a.to_owned();
    s.append(b);
    s.append(c);
    s.append(d);
    s
}

/// Whether `list` holds the text `s`.
pub fn contains_text(list: &[String], s: &str) -> (r: bool)
    ensures
        r == texts(list@).contains(s@),
{
    let n: usize = list.len();
    let mut i: usize = 0;
    while i < n
        invariant
            n == list@.len(),
            i <= n,
            forall|j: int| 0 <= j < i ==> texts(list@)[j] != s@,
        decreases n - i,
    {
        if same_text(list[i].as_str(), s) {
            assert(texts(list@)[i as int] == s@);
            return true;
        }
        i = i + 1;
    }
    false
}

/// The first text of a list, or `default` where the list is empty.
pub open spec fn first_text_or(list: Seq<Seq<char>>, default: Seq<char>) -> Seq<char> {
    if list.len() > 0 {
        list[0]
    } else {
        default
    }
}

/// The first text of `list`, or `default` where the list is empty.
pub fn first_or(list: &[String], default: &str) -> (s: String)
    ensures
        s@ == first_text_or(texts(list@), default@),
{
    if list.len() > 0 {
        list[0].clone()
    } else {
        default.to_owned()
    }
}

/// The last of the pieces of `s` between occurrences of `sep`.
pub open spec fn last_piece(s: Seq<char>, sep: char) -> Seq<char> {
    split(s, sep).last()
}

/// There is always a piece.
pub proof fn lemma_split_nonempty(s: Seq<char>, sep: char)
    ensures
        split(s, sep).len() > 0,
    decreases s.len(),
{
    match s.index_of_first(sep) {
        Some(i) => {
            if 0 <= i < s.len() {
                lemma_split_nonempty(s.subrange(i + 1, s.len() as int), sep);
            }
        },
        None => {},
    }
}

/// The last of the pieces of `s` between occurrences of `sep`.
pub fn last_piece_of(s: &str, sep: char) -> (r: String)
    ensures
        r@ == last_piece(s@, sep),
{
    let pieces = split_on(s, sep);
    proof {
        lemma_split_nonempty(s@, sep);
        assert(texts(pieces@).len() == pieces@.len());
        assert(texts(pieces@).last() == pieces@.last()@);
    }
    let n: usize = pieces.len();
    pieces[n - 1].clone()
}

/// Calls `str::to_lowercase`. The result is a function of the text alone and
/// is named [`lowercase_of`]. On a text of ASCII characters it is the text
/// with `A` to `Z` replaced by `a` to `z`, which is all that the contract
/// claims of the named result.
#[verifier::external_body]
pub(crate) fn to_lowercase(s: &str) -> (r: String)
    ensures
        r@ == lowercase_of(s@),
        all_ascii(s@) ==> r@ == ascii_lowered(s@),
{
    s.to_lowercase()
}

} // verus!
