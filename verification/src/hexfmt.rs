use vstd::prelude::*;

use crate::str_bytes;

verus! {

/// Whether `d` is the ASCII byte of a lowercase hexadecimal digit.
pub open spec fn is_hex_digit(d: u8) -> bool {
    0x30 <= d <= 0x39 || 0x61 <= d <= 0x66
}

/// The ASCII byte of the lowercase hexadecimal digit for a nibble.
pub open spec fn hex_digit_of(n: u8) -> u8
    recommends
        n < 16,
{
    if n < 10 {
        (0x30 + n) as u8
    } else {
        (0x57 + n) as u8
    }
}

/// The nibble value of an ASCII lowercase hexadecimal digit.
pub open spec fn hex_val_of(d: u8) -> u8
    recommends
        is_hex_digit(d),
{
    if d <= 0x39 {
        (d - 0x30) as u8
    } else {
        (d - 0x57) as u8
    }
}

/// The ASCII bytes of the lowercase hexadecimal encoding of `b`:
/// two digits per input byte, high nibble first, in input order.
pub open spec fn hex_bytes_of(b: Seq<u8>) -> Seq<u8>
    decreases b.len(),
{
    if b.len() == 0 {
        Seq::empty()
    } else {
        seq![
            hex_digit_of((b.first() / 16) as u8),
            hex_digit_of((b.first() % 16) as u8),
        ] + hex_bytes_of(b.drop_first())
    }
}

/// A hex encoding is twice as long as its input.
pub proof fn lemma_hex_bytes_len(b: Seq<u8>)
    ensures
        hex_bytes_of(b).len() == 2 * b.len(),
    decreases b.len(),
{
    if b.len() > 0 {
        lemma_hex_bytes_len(b.drop_first());
    }
}

/// Every byte of a hex encoding is a lowercase hexadecimal digit.
pub proof fn lemma_hex_bytes_digits(b: Seq<u8>)
    ensures
        forall|i: int| 0 <= i < hex_bytes_of(b).len() ==> is_hex_digit(#[trigger] hex_bytes_of(b)[i]),
    decreases b.len(),
{
    if b.len() > 0 {
        lemma_hex_bytes_digits(b.drop_first());
        assert forall|i: int|
            0 <= i < hex_bytes_of(b).len() implies is_hex_digit(
            #[trigger] hex_bytes_of(b)[i],
        ) by {
            if i >= 2 {
                assert(hex_bytes_of(b)[i] == hex_bytes_of(b.drop_first())[i - 2]);
            }
        }
    }
}

/// Reading a digit back gives the nibble it was written from, and writing
/// a digit's value gives the digit back.
pub proof fn lemma_hex_digit_roundtrip()
    ensures
        forall|n: u8| n < 16 ==> hex_val_of(#[trigger] hex_digit_of(n)) == n,
        forall|n: u8| n < 16 ==> is_hex_digit(#[trigger] hex_digit_of(n)),
        forall|d: u8| is_hex_digit(d) ==> #[trigger] hex_digit_of(hex_val_of(d)) == d,
{
}

/// Appending a byte appends its two digits.
pub proof fn lemma_hex_bytes_push(b: Seq<u8>, x: u8)
    ensures
        hex_bytes_of(b.push(x)) == hex_bytes_of(b) + seq![
            hex_digit_of((x / 16) as u8),
            hex_digit_of((x % 16) as u8),
        ],
    decreases b.len(),
{
    if b.len() == 0 {
        assert(b.push(x).drop_first() =~= Seq::<u8>::empty());
        assert(b.push(x).first() == x);
        assert(hex_bytes_of(Seq::<u8>::empty()) =~= Seq::<u8>::empty());
        assert(hex_bytes_of(b) =~= Seq::<u8>::empty());
        assert(hex_bytes_of(b.push(x)) =~= hex_bytes_of(b) + seq![
            hex_digit_of((x / 16) as u8),
            hex_digit_of((x % 16) as u8),
        ]);
    } else {
        lemma_hex_bytes_push(b.drop_first(), x);
        assert(b.push(x).drop_first() =~= b.drop_first().push(x));
        assert(b.push(x).first() == b.first());
        assert(hex_bytes_of(b.push(x)) =~= hex_bytes_of(b) + seq![
            hex_digit_of((x / 16) as u8),
            hex_digit_of((x % 16) as u8),
        ]);
    }
}

/// Two byte strings with the same hex encoding are the same.
pub proof fn lemma_hex_bytes_injective(a: Seq<u8>, b: Seq<u8>)
    requires
        hex_bytes_of(a) == hex_bytes_of(b),
    ensures
        a == b,
    decreases a.len(),
{
    lemma_hex_bytes_len(a);
    lemma_hex_bytes_len(b);
    if a.len() == 0 {
        assert(a =~= b);
    } else {
        lemma_hex_digit_roundtrip();
        assert(hex_bytes_of(a)[0] == hex_digit_of((a.first() / 16) as u8));
        assert(hex_bytes_of(a)[1] == hex_digit_of((a.first() % 16) as u8));
        assert(hex_bytes_of(b)[0] == hex_digit_of((b.first() / 16) as u8));
        assert(hex_bytes_of(b)[1] == hex_digit_of((b.first() % 16) as u8));
        assert(a.first() / 16 == b.first() / 16 && a.first() % 16 == b.first() % 16);
        assert(a.first() == b.first());
        assert(hex_bytes_of(a).skip(2) =~= hex_bytes_of(a.drop_first()));
        assert(hex_bytes_of(b).skip(2) =~= hex_bytes_of(b.drop_first()));
        lemma_hex_bytes_injective(a.drop_first(), b.drop_first());
        assert forall|i: int| 0 <= i < a.len() implies a[i] == b[i] by {
            if i == 0 {
                assert(a[0] == a.first() && b[0] == b.first());
            } else {
                assert(a[i] == a.drop_first()[i - 1]);
                assert(b[i] == b.drop_first()[i - 1]);
            }
        }
        assert(a =~= b);
    }
}

/// Relies on hex::encode of the hex crate: it returns the lowercase
/// hexadecimal encoding of the input, two ASCII digits per byte, high
/// nibble first, in input order.
#[verifier::external_body]
pub(crate) fn hex_encode(data: &Vec<u8>) -> (r: String)
    ensures
        str_bytes(r@) == hex_bytes_of(data@),
{
    hex::encode(data)
}

/// The nibble value of an ASCII byte, when it is a lowercase hex digit.
fn hex_val_checked(d: u8) -> (r: Option<u8>)
    ensures
        match r {
            Some(v) => is_hex_digit(d) && v == hex_val_of(d) && v < 16,
            None => !is_hex_digit(d),
        },
{
    if 0x30 <= d && d <= 0x39 {
        Some(d - 0x30)
    } else if 0x61 <= d && d <= 0x66 {
        Some(d - 0x57)
    } else {
        None
    }
}

/// Decodes a lowercase hexadecimal string back to its bytes. Returns the
/// unique byte string whose encoding is `s`, or `None` when `s` is no
/// lowercase hex encoding at all.
pub fn hex_decode(s: &str) -> (r: Option<Vec<u8>>)
    ensures
        match r {
            Some(v) => str_bytes(s@) == hex_bytes_of(v@),
            None => forall|v: Seq<u8>| str_bytes(s@) != #[trigger] hex_bytes_of(v),
        },
{
    let bytes: &[u8] = s.as_bytes();
    let n: usize = bytes.len();
    if n % 2 != 0 {
        proof {
            assert forall|v: Seq<u8>| str_bytes(s@) != #[trigger] hex_bytes_of(v) by {
                lemma_hex_bytes_len(v);
            }
        }
        return None;
    }
    let half: usize = n / 2;
    let mut out: Vec<u8> = Vec::new();
    for i in 0..half
        invariant
            n == bytes@.len(),
            n % 2 == 0,
            half == n / 2,
            bytes@ == str_bytes(s@),
            out@.len() == i,
            hex_bytes_of(out@) == bytes@.take(2 * i),
    {
        let hi = match hex_val_checked(bytes[2 * i]) {
            Some(v) => v,
            None => {
                proof {
                    assert forall|v: Seq<u8>| str_bytes(s@) != #[trigger] hex_bytes_of(v) by {
                        if str_bytes(s@) == hex_bytes_of(v) {
                            lemma_hex_bytes_digits(v);
                            assert(is_hex_digit(hex_bytes_of(v)[2 * i]));
                        }
                    }
                }
                return None;
            },
        };
        let lo = match hex_val_checked(bytes[2 * i + 1]) {
            Some(v) => v,
            None => {
                proof {
                    assert forall|v: Seq<u8>| str_bytes(s@) != #[trigger] hex_bytes_of(v) by {
                        if str_bytes(s@) == hex_bytes_of(v) {
                            lemma_hex_bytes_digits(v);
                            assert(is_hex_digit(hex_bytes_of(v)[2 * i + 1]));
                        }
                    }
                }
                return None;
            },
        };
        let byte: u8 = hi * 16 + lo;
        proof {
            assert(byte / 16 == hi && byte % 16 == lo) by (nonlinear_arith)
                requires
                    hi < 16,
                    lo < 16,
                    byte == hi * 16 + lo,
            ;
            lemma_hex_digit_roundtrip();
            lemma_hex_bytes_push(out@, byte);
            assert(hex_digit_of((byte / 16) as u8) == bytes@[2 * i]);
            assert(hex_digit_of((byte % 16) as u8) == bytes@[2 * i + 1]);
            assert(hex_bytes_of(out@.push(byte)) =~= bytes@.take(2 * (i + 1)));
        }
        out.push(byte);
    }
    proof {
        assert(bytes@.take(2 * (half as int)) =~= bytes@);
    }
    Some(out)
}

} // verus!
