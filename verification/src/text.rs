//! Small verified text operations the engine's parsing rests on: trimming
//! whitespace, ASCII lowercasing, locating a separator, and string equality.

use vstd::prelude::*;
use vstd::string::StrSliceExecFns;
use vstd::string::StringExecFns;

verus! {

/// A whitespace character as `str::trim` sees it: the Unicode `White_Space`
/// set.
pub open spec fn is_whitespace_char(c: char) -> bool {
    let n = c as u32;
    (9 <= n && n <= 13)  // tab, line feed, vertical tab, form feed, carriage return
     || n == 32  // space
     || n == 0x85  // next line
     || n == 0xa0  // no-break space
     || n == 0x1680  // ogham space mark
     || (0x2000 <= n && n <= 0x200a)  // en quad .. hair space
     || n == 0x2028  // line separator
     || n == 0x2029  // paragraph separator
     || n == 0x202f  // narrow no-break space
     || n == 0x205f  // medium mathematical space
     || n == 0x3000  // ideographic space
}

/// Executable form of `is_whitespace_char`.
fn whitespace_char(c: char) -> (r: bool)
    ensures
        r == is_whitespace_char(c),
{
    let n = c as u32;
    (9 <= n && n <= 13) || n == 32 || n == 0x85 || n == 0xa0 || n == 0x1680 || (0x2000 <= n && n
        <= 0x200a) || n == 0x2028 || n == 0x2029 || n == 0x202f || n == 0x205f || n == 0x3000
}

/// The number of leading whitespace characters of `s`.
pub open spec fn ws_prefix_len(s: Seq<char>) -> nat
    decreases s.len(),
{
    if s.len() > 0 && is_whitespace_char(s.first()) {
        1 + ws_prefix_len(s.drop_first())
    } else {
        0
    }
}

/// The number of trailing whitespace characters of `s`.
pub open spec fn ws_suffix_len(s: Seq<char>) -> nat
    decreases s.len(),
{
    if s.len() > 0 && is_whitespace_char(s.last()) {
        1 + ws_suffix_len(s.drop_last())
    } else {
        0
    }
}

/// The number of characters of `s` before its first colon; `s.len()` when `s`
/// has none.
pub open spec fn colon_prefix_len(s: Seq<char>) -> nat
    decreases s.len(),
{
    if s.len() > 0 && s.first() != ':' {
        1 + colon_prefix_len(s.drop_first())
    } else {
        0
    }
}

/// `s` with leading and trailing whitespace removed, as `str::trim` removes
/// it.
pub open spec fn spec_trim(s: Seq<char>) -> Seq<char> {
    if ws_prefix_len(s) == s.len() {
        Seq::<char>::empty()
    } else {
        s.subrange(ws_prefix_len(s) as int, s.len() - ws_suffix_len(s))
    }
}

/// `ws_prefix_len` is exactly the index of the first character that is not
/// whitespace.
pub proof fn lemma_ws_prefix(s: Seq<char>, k: nat)
    requires
        k <= s.len(),
        forall|j: int| 0 <= j < k ==> is_whitespace_char(s[j]),
        k == s.len() || !is_whitespace_char(s[k as int]),
    ensures
        ws_prefix_len(s) == k,
    decreases s.len(),
{
    if k == 0 {
    } else {
        assert(is_whitespace_char(s.first()));
        lemma_ws_prefix(s.drop_first(), (k - 1) as nat);
    }
}

/// `ws_suffix_len` is exactly the number of characters after the last one
/// that is not whitespace.
pub proof fn lemma_ws_suffix(s: Seq<char>, k: nat)
    requires
        k <= s.len(),
        forall|j: int| s.len() - k <= j < s.len() ==> is_whitespace_char(s[j]),
        k == s.len() || !is_whitespace_char(s[s.len() - k - 1]),
    ensures
        ws_suffix_len(s) == k,
    decreases s.len(),
{
    if k == 0 {
    } else {
        assert(is_whitespace_char(s.last()));
        lemma_ws_suffix(s.drop_last(), (k - 1) as nat);
    }
}

/// `colon_prefix_len` is exactly the index of the first colon.
pub proof fn lemma_colon_prefix(s: Seq<char>, k: nat)
    requires
        k <= s.len(),
        forall|j: int| 0 <= j < k ==> s[j] != ':',
        k == s.len() || s[k as int] == ':',
    ensures
        colon_prefix_len(s) == k,
    decreases s.len(),
{
    if k == 0 {
    } else {
        assert(s.first() != ':');
        lemma_colon_prefix(s.drop_first(), (k - 1) as nat);
    }
}

/// Removes leading and trailing whitespace, as `str::trim` does.
pub fn trim_str(s: &str) -> (r: String)
    ensures
        r@ == spec_trim(s@),
{
    let len = s.unicode_len();
    let mut lo: usize = 0;
    loop
        invariant
            len == s@.len(),
            lo <= len,
            forall|j: int| 0 <= j < lo ==> is_whitespace_char(s@[j]),
        ensures
            lo <= len,
            forall|j: int| 0 <= j < lo ==> is_whitespace_char(s@[j]),
            lo == len || !is_whitespace_char(s@[lo as int]),
        decreases len - lo,
    {
        if lo >= len {
            break;
        }
        if !whitespace_char(s.get_char(lo)) {
            break;
        }
        lo = lo + 1;
    }
    proof {
        lemma_ws_prefix(s@, lo as nat);
    }
    if lo >= len {
        return String::new();
    }
    let mut hi: usize = len;
    loop
        invariant
            len == s@.len(),
            hi <= len,
            forall|j: int| hi <= j < len ==> is_whitespace_char(s@[j]),
        ensures
            hi <= len,
            forall|j: int| hi <= j < len ==> is_whitespace_char(s@[j]),
            hi == 0 || !is_whitespace_char(s@[hi - 1]),
        decreases hi,
    {
        if hi == 0 {
            break;
        }
        if !whitespace_char(s.get_char(hi - 1)) {
            break;
        }
        hi = hi - 1;
    }
    proof {
        lemma_ws_suffix(s@, (len - hi) as nat);
        assert(lo < hi);
    }
    s.substring_char(lo, hi).to_owned()
}

/// The ASCII-lowercase form of a character: `A`..`Z` map to `a`..`z`, every
/// other character stays itself.
pub open spec fn spec_lower_char(c: char) -> char {
    if c == 'A' {
        'a'
    } else if c == 'B' {
        'b'
    } else if c == 'C' {
        'c'
    } else if c == 'D' {
        'd'
    } else if c == 'E' {
        'e'
    } else if c == 'F' {
        'f'
    } else if c == 'G' {
        'g'
    } else if c == 'H' {
        'h'
    } else if c == 'I' {
        'i'
    } else if c == 'J' {
        'j'
    } else if c == 'K' {
        'k'
    } else if c == 'L' {
        'l'
    } else if c == 'M' {
        'm'
    } else if c == 'N' {
        'n'
    } else if c == 'O' {
        'o'
    } else if c == 'P' {
        'p'
    } else if c == 'Q' {
        'q'
    } else if c == 'R' {
        'r'
    } else if c == 'S' {
        's'
    } else if c == 'T' {
        't'
    } else if c == 'U' {
        'u'
    } else if c == 'V' {
        'v'
    } else if c == 'W' {
        'w'
    } else if c == 'X' {
        'x'
    } else if c == 'Y' {
        'y'
    } else if c == 'Z' {
        'z'
    } else {
        c
    }
}

/// `s` with its ASCII uppercase letters lowered, character for character.
pub open spec fn spec_ascii_lower(s: Seq<char>) -> Seq<char> {
    s.map_values(|c: char| spec_lower_char(c))
}

/// The lowercase form of one ASCII uppercase letter, as a one-character
/// string.
fn lower_letter_str(c: char) -> (r: &'static str)
    requires
        'A' <= c && c <= 'Z',
    ensures
        r@ == seq![spec_lower_char(c)],
{
    let r: &'static str = match c {
        'A' => "a",
        'B' => "b",
        'C' => "c",
        'D' => "d",
        'E' => "e",
        'F' => "f",
        'G' => "g",
        'H' => "h",
        'I' => "i",
        'J' => "j",
        'K' => "k",
        'L' => "l",
        'M' => "m",
        'N' => "n",
        'O' => "o",
        'P' => "p",
        'Q' => "q",
        'R' => "r",
        'S' => "s",
        'T' => "t",
        'U' => "u",
        'V' => "v",
        'W' => "w",
        'X' => "x",
        'Y' => "y",
        _ => "z",
    };
    proof {
        reveal_strlit("a");
        reveal_strlit("b");
        reveal_strlit("c");
        reveal_strlit("d");
        reveal_strlit("e");
        reveal_strlit("f");
        reveal_strlit("g");
        reveal_strlit("h");
        reveal_strlit("i");
        reveal_strlit("j");
        reveal_strlit("k");
        reveal_strlit("l");
        reveal_strlit("m");
        reveal_strlit("n");
        reveal_strlit("o");
        reveal_strlit("p");
        reveal_strlit("q");
        reveal_strlit("r");
        reveal_strlit("s");
        reveal_strlit("t");
        reveal_strlit("u");
        reveal_strlit("v");
        reveal_strlit("w");
        reveal_strlit("x");
        reveal_strlit("y");
        reveal_strlit("z");
        assert(r@ =~= seq![spec_lower_char(c)]);
    }
    r
}

/// Lowers the ASCII uppercase letters of `s`; every other character is kept.
pub fn ascii_lower(s: &str) -> (r: String)
    ensures
        r@ == spec_ascii_lower(s@),
{
    let len = s.unicode_len();
    let mut r = String::new();
    let mut i: usize = 0;
    proof {
        assert(r@ =~= spec_ascii_lower(s@.take(0)));
    }
    while i < len
        invariant
            len == s@.len(),
            i <= len,
            r@ == spec_ascii_lower(s@.take(i as int)),
        decreases len - i,
    {
        let c = s.get_char(i);
        let n = c as u32;
        if 65 <= n && n <= 90 {
            r.append(lower_letter_str(c));
        } else {
            r.append(s.substring_char(i, i + 1));
        }
        proof {
            assert(r@ =~= spec_ascii_lower(s@.take(i as int + 1)));
        }
        i = i + 1;
    }
    proof {
        assert(s@.take(len as int) =~= s@);
    }
    r
}

/// Whether two strings hold the same characters.
pub fn str_eq(a: &str, b: &str) -> (r: bool)
    ensures
        r == (a@ == b@),
{
    let la = a.unicode_len();
    let lb = b.unicode_len();
    if la != lb {
        proof {
            assert(a@ != b@);
        }
        return false;
    }
    let mut i: usize = 0;
    while i < la
        invariant
            la == a@.len(),
            la == b@.len(),
            i <= la,
            forall|j: int| 0 <= j < i ==> a@[j] == b@[j],
        decreases la - i,
    {
        if a.get_char(i) != b.get_char(i) {
            return false;
        }
        i = i + 1;
    }
    proof {
        assert(a@ =~= b@);
    }
    true
}

} // verus!
