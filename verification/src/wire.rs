//! Byte-level pieces of the upload wire protocol: decimal numerals, the
//! `Content-Range` request header and the `Range` response header.

use vstd::prelude::*;

verus! {

/// The decimal numeral for `n` as ASCII bytes, most significant digit first,
/// with no leading zeros (`0` itself is the single byte `b'0'`).
pub open spec fn dec_digits(n: nat) -> Seq<u8>
    decreases n,
{
    if n < 10 {
        seq![(48 + n) as u8]
    } else {
        dec_digits(n / 10).push((48 + n % 10) as u8)
    }
}

/// Render `n` as its ASCII decimal numeral.
pub fn format_decimal(n: usize) -> (r: Vec<u8>)
    ensures
        r@ == dec_digits(n as nat),
    decreases n,
{
    if n < 10 {
        let mut r: Vec<u8> = Vec::new();
        r.push(48 + n as u8);
        proof {
            assert(r@ =~= dec_digits(n as nat));
        }
        r
    } else {
        let mut r = format_decimal(n / 10);
        r.push(48 + (n % 10) as u8);
        proof {
            assert(r@ =~= dec_digits(n as nat));
        }
        r
    }
}

pub open spec fn is_dec_digit(b: u8) -> bool {
    48 <= b <= 57
}

pub open spec fn all_dec_digits(s: Seq<u8>) -> bool {
    forall|i: int| 0 <= i < s.len() ==> is_dec_digit(#[trigger] s[i])
}

/// The value of a string of ASCII digits, most significant first. Leading
/// zeros are permitted, as they are by the usual integer parsers.
pub open spec fn digits_val(s: Seq<u8>) -> nat
    decreases s.len(),
{
    if s.len() == 0 {
        0
    } else {
        digits_val(s.drop_last()) * 10 + (s.last() - 48) as nat
    }
}

/// Appending further digits can only increase the value.
proof fn lemma_digits_val_prefix_le(s: Seq<u8>, n: int)
    requires
        0 <= n <= s.len(),
    ensures
        digits_val(s.take(n)) <= digits_val(s),
    decreases s.len() - n,
{
    if n < s.len() {
        lemma_digits_val_prefix_le(s, n + 1);
        assert(s.take(n + 1).drop_last() =~= s.take(n));
        assert(digits_val(s.take(n + 1)) == digits_val(s.take(n)) * 10 + (s.take(n + 1).last()
            - 48) as nat);
        assert(digits_val(s.take(n)) <= digits_val(s.take(n)) * 10) by (nonlinear_arith);
    } else {
        assert(s.take(n) =~= s);
    }
}

/// `bytes=0-` — the prefix of the `Range` response header that reports the
/// confirmed extent of the whole object.
pub open spec fn range_prefix() -> Seq<u8> {
    seq![98u8, 121u8, 116u8, 101u8, 115u8, 61u8, 48u8, 45u8]
}

/// What a `Range: bytes=0-E` response header denotes: `Some(E)` when the
/// header is well formed and `E` fits in `usize`, `None` otherwise.
pub open spec fn range_header_end(h: Seq<u8>) -> Option<int> {
    if h.len() > 8 && h.take(8) == range_prefix() && all_dec_digits(h.skip(8)) && digits_val(
        h.skip(8),
    ) <= usize::MAX {
        Some(digits_val(h.skip(8)) as int)
    } else {
        None
    }
}

/// Parse a `Range: bytes=0-E` response header, yielding the confirmed end
/// offset `E`. Any malformed header, including a value too large for
/// `usize`, yields `None`.
pub fn parse_range_end(h: &[u8]) -> (r: Option<usize>)
    ensures
        match r {
            Some(v) => range_header_end(h@) == Some(v as int),
            None => range_header_end(h@) is None,
        },
{
    let len = h.len();
    if len <= 8 {
        return None;
    }
    if !(h[0] == 98 && h[1] == 121 && h[2] == 116 && h[3] == 101 && h[4] == 115 && h[5] == 61
        && h[6] == 48 && h[7] == 45) {
        proof {
            assert(h@.take(8) != range_prefix());
        }
        return None;
    }
    proof {
        assert(h@.take(8) =~= range_prefix());
    }
    let mut acc: usize = 0;
    let mut i: usize = 8;
    while i < len
        invariant
            8 <= i <= len,
            len == h@.len(),
            all_dec_digits(h@.skip(8).take(i - 8)),
            acc == digits_val(h@.skip(8).take(i - 8)),
        decreases len - i,
    {
        let b = h[i];
        if b < 48 || b > 57 {
            assert(!is_dec_digit(h@.skip(8)[i - 8]));
            return None;
        }
        let d = (b - 48) as usize;
        proof {
            assert(h@.skip(8).take(i + 1 - 8).drop_last() =~= h@.skip(8).take(i - 8));
            assert(h@.skip(8).take(i + 1 - 8).last() == b);
        }
        if acc > (usize::MAX - d) / 10 {
            proof {
                assert(digits_val(h@.skip(8).take(i + 1 - 8)) == acc * 10 + d);
                assert(acc * 10 + d > usize::MAX) by (nonlinear_arith)
                    requires
                        acc > (usize::MAX - d) / 10,
                        d < 10,
                ;
                lemma_digits_val_prefix_le(h@.skip(8), i + 1 - 8);
            }
            return None;
        }
        proof {
            assert(acc * 10 + d <= usize::MAX) by (nonlinear_arith)
                requires
                    acc <= (usize::MAX - d) / 10,
                    d < 10,
            ;
        }
        acc = acc * 10 + d;
        i = i + 1;
    }
    proof {
        assert(h@.skip(8).take(len - 8) =~= h@.skip(8));
    }
    Some(acc)
}

/// `bytes ` — the prefix of the `Content-Range` request header.
pub open spec fn content_range_prefix() -> Seq<u8> {
    seq![98u8, 121u8, 116u8, 101u8, 115u8, 32u8]
}

/// The `Content-Range: bytes lo-hi/total` header for one chunk PUT. A `None`
/// total renders as `*`, telling the server that more bytes follow; a
/// `Some` total declares the final object length and ends the upload.
pub open spec fn content_range_seq(lo: nat, hi: nat, total: Option<usize>) -> Seq<u8> {
    content_range_prefix() + dec_digits(lo) + seq![45u8] + dec_digits(hi) + seq![47u8] + match total {
        Some(t) => dec_digits(t as nat),
        None => seq![42u8],
    }
}

/// Render the `Content-Range` header value for the byte range `lo..=hi` with
/// the given total-length field.
pub fn content_range_header(lo: usize, hi: usize, total: Option<usize>) -> (h: Vec<u8>)
    ensures
        h@ == content_range_seq(lo as nat, hi as nat, total),
{
    let mut h: Vec<u8> = Vec::new();
    h.push(98);
    h.push(121);
    h.push(116);
    h.push(101);
    h.push(115);
    h.push(32);
    proof {
        assert(h@ =~= content_range_prefix());
    }
    let mut lo_digits = format_decimal(lo);
    h.append(&mut lo_digits);
    h.push(45);
    let mut hi_digits = format_decimal(hi);
    h.append(&mut hi_digits);
    h.push(47);
    match total {
        Some(t) => {
            let mut total_digits = format_decimal(t);
            h.append(&mut total_digits);
        },
        None => {
            h.push(42);
        },
    }
    proof {
        assert(h@ =~= content_range_seq(lo as nat, hi as nat, total));
    }
    h
}

} // verus!
