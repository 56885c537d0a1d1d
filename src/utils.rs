use vstd::prelude::*;
use crate::text::{
    chars_of, decimal, decimal_chars, lemma_tail_grows, lemma_tail_monotone, string_from_chars, tail,
    utf8_size, utf8_width,
};

verus! {

/// The largest power of 1024 (up to 1024^4) that does not exceed `bytes`,
/// as its exponent; zero for sizes under 1024.
pub open spec fn size_unit(bytes: nat) -> nat {
    if bytes >= 1099511627776 {
        4
    } else if bytes >= 1073741824 {
        3
    } else if bytes >= 1048576 {
        2
    } else if bytes >= 1024 {
        1
    } else {
        0
    }
}

/// 1024 raised to `k`, for the exponents that `size_unit` yields.
pub open spec fn unit_divisor(k: nat) -> nat {
    if k == 4 {
        1099511627776
    } else if k == 3 {
        1073741824
    } else if k == 2 {
        1048576
    } else if k == 1 {
        1024
    } else {
        1
    }
}

/// The binary-prefixed unit symbol for exponent `k`.
pub open spec fn unit_symbol(k: nat) -> Seq<char> {
    if k == 4 {
        seq!['T', 'i', 'B']
    } else if k == 3 {
        seq!['G', 'i', 'B']
    } else if k == 2 {
        seq!['M', 'i', 'B']
    } else if k == 1 {
        seq!['K', 'i', 'B']
    } else {
        seq!['B']
    }
}

/// `n / d` rounded to the nearest integer, ties to the even one.
pub open spec fn div_round_even(n: nat, d: nat) -> nat
    recommends
        d > 0,
{
    let q = n / d;
    let r = n % d;
    if 2 * r > d || (2 * r == d && q % 2 == 1) {
        q + 1
    } else {
        q
    }
}

/// The human-readable size: the byte count scaled to its unit and rounded
/// to a whole number, a space, then the unit.
pub open spec fn size_text(bytes: nat) -> Seq<char> {
    let k = size_unit(bytes);
    decimal(div_round_even(bytes, unit_divisor(k))) + seq![' '] + unit_symbol(k)
}

/// Converts a byte count to a human-readable size with binary prefixes
/// (`"0 B"`, `"2 KiB"`, `"1 MiB"`, up to TiB).
pub fn format_size(bytes: u64) -> (r: String)
    ensures
        r@ == size_text(bytes as nat),
{
    let (k, d): (u64, u64) = if bytes >= 1099511627776 {
        (4, 1099511627776)
    } else if bytes >= 1073741824 {
        (3, 1073741824)
    } else if bytes >= 1048576 {
        (2, 1048576)
    } else if bytes >= 1024 {
        (1, 1024)
    } else {
        (0, 1)
    };
    let q = bytes / d;
    let rem = bytes % d;
    let rounded: u64 = if rem > d - rem || (rem == d - rem && q % 2 == 1) {
        q + 1
    } else {
        q
    };
    let mut v = decimal_chars(rounded);
    v.push(' ');
    if k == 4 {
        v.push('T');
    } else if k == 3 {
        v.push('G');
    } else if k == 2 {
        v.push('M');
    } else if k == 1 {
        v.push('K');
    }
    if k > 0 {
        v.push('i');
    }
    v.push('B');
    assert(v@ =~= size_text(bytes as nat));
    string_from_chars(&v)
}

/// Whether the last `k` characters of `path` are the longest tail of it
/// that takes at most `n` bytes in UTF-8.
pub open spec fn longest_tail_within(path: Seq<char>, n: nat, k: int) -> bool {
    &&& 0 <= k <= path.len()
    &&& utf8_size(tail(path, k)) <= n
    &&& k < path.len() ==> utf8_size(tail(path, k + 1)) > n
}

/// Shortens a displayed path to its last `n` bytes, marking the cut with a
/// leading `"..."`. A path of at most `n` bytes is kept whole. Where the cut
/// would split a character, the tail starts at the next character.
pub fn limit_path_string(path: &str, n: usize) -> (r: String)
    ensures
        utf8_size(path@) <= n ==> r@ == path@,
        utf8_size(path@) > n ==> exists|k: int|
            longest_tail_within(path@, n as nat, k) && r@ == seq!['.', '.', '.'] + #[trigger] tail(
                path@,
                k,
            ),
        forall|k: int|
            0 <= k <= path@.len() && utf8_size(path@) > n && utf8_size(#[trigger] tail(path@, k))
                == n ==> r@ == seq!['.', '.', '.'] + tail(path@, k),
{
    let chars = chars_of(path);
    let len = chars.len();
    let mut k: usize = 0;
    let mut bytes: usize = 0;
    let mut full = false;
    assert(tail(chars@, 0) =~= Seq::<char>::empty());
    while k < len && !full
        invariant
            k <= len == chars@.len(),
            bytes == utf8_size(tail(chars@, k as int)),
            bytes <= n,
            full ==> k < len && utf8_size(tail(chars@, k + 1)) > n,
        decreases len - k + if full { 0int } else { 1int },
    {
        let w = utf8_width(chars[len - 1 - k]);
        proof {
            lemma_tail_grows(chars@, k as int);
        }
        if w > n - bytes {
            full = true;
        } else {
            bytes = bytes + w;
            k = k + 1;
        }
    }
    assert(tail(chars@, len as int) =~= chars@);
    if k == len {
        return string_from_chars(&chars);
    }
    proof {
        lemma_tail_monotone(chars@, k + 1, len as int);
        assert forall|j: int|
            0 <= j <= chars@.len() && utf8_size(#[trigger] tail(chars@, j)) == n implies j == k by {
            if j > k {
                lemma_tail_monotone(chars@, k + 1, j);
            } else if j < k {
                lemma_tail_monotone(chars@, j, k as int);
            }
        }
    }
    let mut v: Vec<char> = Vec::new();
    v.push('.');
    v.push('.');
    v.push('.');
    let start = len - k;
    let mut i: usize = start;
    while i < len
        invariant
            len == chars@.len(),
            start <= i <= len,
            v@ == seq!['.', '.', '.'] + chars@.subrange(start as int, i as int),
        decreases len - i,
    {
        v.push(chars[i]);
        i += 1;
        assert(v@ =~= seq!['.', '.', '.'] + chars@.subrange(start as int, i as int));
    }
    proof {
        assert(longest_tail_within(chars@, n as nat, k as int));
    }
    string_from_chars(&v)
}

} // verus!
