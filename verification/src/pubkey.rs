//! Account addresses: 32 bytes, written as base58 text.
use solana_program::pubkey::Pubkey;
use std::str::FromStr;
use vstd::arithmetic::div_mod::{
    lemma_fundamental_div_mod_converse_div, lemma_fundamental_div_mod_converse_mod,
};
use vstd::prelude::*;

verus! {

/// Big-endian value of a byte sequence.
pub open spec fn be_value(b: Seq<u8>) -> nat
    decreases b.len(),
{
    if b.len() == 0 {
        0
    } else {
        be_value(b.drop_last()) * 256 + b.last() as nat
    }
}

/// Base-58 digits of `v`, most significant first; none for zero.
pub open spec fn base58_digits(v: nat) -> Seq<nat>
    decreases v,
{
    if v == 0 {
        Seq::empty()
    } else {
        proof {
            assert(v / 58 < v) by (nonlinear_arith)
                requires
                    v > 0,
            ;
        }
        base58_digits(v / 58).push(v % 58)
    }
}

/// Value of a sequence of base-58 digits, most significant first.
pub open spec fn digits_value(s: Seq<nat>) -> nat
    decreases s.len(),
{
    if s.len() == 0 {
        0
    } else {
        digits_value(s.drop_last()) * 58 + s.last()
    }
}

/// The character of base-58 digit `d` in the Bitcoin alphabet
/// `123456789ABCDEFGHJKLMNPQRSTUVWXYZabcdefghijkmnopqrstuvwxyz`.
pub open spec fn base58_char(d: nat) -> char {
    if d < 9 {
        (49 + d) as char
    } else if d < 17 {
        (65 + d - 9) as char
    } else if d < 22 {
        (74 + d - 17) as char
    } else if d < 33 {
        (80 + d - 22) as char
    } else if d < 44 {
        (97 + d - 33) as char
    } else {
        (109 + d - 44) as char
    }
}

/// Number of zero bytes at the start of `b`.
pub open spec fn leading_zeros(b: Seq<u8>) -> nat
    decreases b.len(),
{
    if b.len() > 0 && b[0] == 0 {
        1 + leading_zeros(b.drop_first())
    } else {
        0
    }
}

/// The base58 text of an account address: one `1` per leading zero byte,
/// then the base-58 digits of the big-endian value of the bytes.
pub open spec fn base58_text(key: Seq<u8>) -> Seq<char> {
    Seq::new(leading_zeros(key), |i: int| '1') + base58_digits(be_value(key)).map_values(
        |d: nat| base58_char(d),
    )
}

/// Renders an account address as `Pubkey::to_string` does: its base58 text.
#[verifier::external_body]
pub(crate) fn key_to_string(key: &[u8; 32]) -> (s: String)
    ensures
        s@ == base58_text(key@),
{
    Pubkey::new_from_array(*key).to_string()
}


/// The base58 text of an account address, as Solana writes addresses.
pub fn address_text(key: &[u8; 32]) -> (s: String)
    ensures
        s@ == base58_text(key@),
{
    key_to_string(key)
}

/// Whether `r` is what parsing the text `s` as an address gives: the
/// address whose base58 text is `s`, or `None` when no address has text `s`.
pub open spec fn parses_to(s: Seq<char>, r: Option<[u8; 32]>) -> bool {
    match r {
        Some(k) => base58_text(k@) == s,
        None => forall|k: [u8; 32]| #[trigger] base58_text(k@) != s,
    }
}

/// Parses an address as `Pubkey::from_str` does. It decodes base58 text
/// (rejecting text longer than 44 characters, characters outside the
/// alphabet, and texts that do not decode to exactly 32 bytes); decoding is
/// the inverse of the encoding that `base58_text` states, so it succeeds
/// exactly on the texts of addresses and gives that address.
#[verifier::external_body]
pub(crate) fn key_from_str(s: &str) -> (r: Option<[u8; 32]>)
    ensures
        parses_to(s@, r),
{
    match Pubkey::from_str(s) {
        Ok(k) => Some(k.to_bytes()),
        Err(_) => None,
    }
}

/// Whether two account addresses are the same 32 bytes.
pub fn same_key(a: &[u8; 32], b: &[u8; 32]) -> (r: bool)
    ensures
        r == (a@ == b@),
{
    let mut i: usize = 0;
    while i < 32
        invariant
            i <= 32,
            forall|j: int| 0 <= j < i ==> a@[j] == b@[j],
        decreases 32 - i,
    {
        if a[i] != b[i] {
            return false;
        }
        i = i + 1;
    }
    assert(a@ =~= b@);
    true
}

/// Byte sequences of one length are told apart by their big-endian value.
pub proof fn lemma_be_value_injective(a: Seq<u8>, b: Seq<u8>)
    requires
        a.len() == b.len(),
        be_value(a) == be_value(b),
    ensures
        a == b,
    decreases a.len(),
{
    if a.len() > 0 {
        let pa = be_value(a.drop_last()) as int;
        let pb = be_value(b.drop_last()) as int;
        let v = be_value(a) as int;
        lemma_fundamental_div_mod_converse_div(v, 256, pa, a.last() as int);
        lemma_fundamental_div_mod_converse_mod(v, 256, pa, a.last() as int);
        lemma_fundamental_div_mod_converse_div(v, 256, pb, b.last() as int);
        lemma_fundamental_div_mod_converse_mod(v, 256, pb, b.last() as int);
        lemma_be_value_injective(a.drop_last(), b.drop_last());
        assert(a =~= a.drop_last().push(a.last()));
        assert(b =~= b.drop_last().push(b.last()));
    }
}

/// The digits of a value are digits below 58 that give the value back,
/// and the first one is not zero.
pub proof fn lemma_digits(v: nat)
    ensures
        digits_value(base58_digits(v)) == v,
        forall|i: int| 0 <= i < base58_digits(v).len() ==> #[trigger] base58_digits(v)[i] < 58,
        v > 0 ==> base58_digits(v).len() > 0 && base58_digits(v)[0] != 0,
        v == 0 ==> base58_digits(v).len() == 0,
    decreases v,
{
    if v > 0 {
        let q = v / 58;
        let r = v % 58;
        assert(q < v && v == q * 58 + r && r < 58) by (nonlinear_arith)
            requires
                v > 0,
                q == v / 58,
                r == v % 58,
        ;
        lemma_digits(q);
        let d = base58_digits(v);
        assert(d == base58_digits(q).push(r));
        assert(d.drop_last() =~= base58_digits(q));
        if q == 0 {
            assert(r == v);
        } else {
            assert(d[0] == base58_digits(q)[0]);
        }
    }
}

/// Distinct digits have distinct characters, and only digit 0 is `1`.
pub proof fn lemma_base58_char(d: nat, e: nat)
    requires
        d < 58,
        e < 58,
    ensures
        base58_char(d) == base58_char(e) ==> d == e,
        base58_char(d) == '1' <==> d == 0,
{
    assert(('1' as int) == 49);
}


/// The big-endian value is zero exactly when every byte is.
pub proof fn lemma_be_value_zero(b: Seq<u8>)
    ensures
        be_value(b) == 0 <==> forall|i: int| 0 <= i < b.len() ==> b[i] == 0,
    decreases b.len(),
{
    if b.len() > 0 {
        lemma_be_value_zero(b.drop_last());
        if be_value(b) == 0 {
            assert forall|i: int| 0 <= i < b.len() implies b[i] == 0 by {
                if i < b.len() - 1 {
                    assert(b.drop_last()[i] == b[i]);
                }
            }
        }
        if forall|i: int| 0 <= i < b.len() ==> b[i] == 0 {
            assert forall|i: int| 0 <= i < b.drop_last().len() implies b.drop_last()[i] == 0 by {
                assert(b.drop_last()[i] == b[i]);
            }
        }
    }
}

/// The leading zero bytes are all of `b` exactly when every byte is zero.
pub proof fn lemma_leading_zeros(b: Seq<u8>)
    ensures
        leading_zeros(b) <= b.len(),
        leading_zeros(b) == b.len() <==> forall|i: int| 0 <= i < b.len() ==> b[i] == 0,
    decreases b.len(),
{
    if b.len() > 0 {
        lemma_leading_zeros(b.drop_first());
        if b[0] == 0 {
            if forall|i: int| 0 <= i < b.drop_first().len() ==> b.drop_first()[i] == 0 {
                assert forall|i: int| 0 <= i < b.len() implies b[i] == 0 by {
                    if i > 0 {
                        assert(b[i] == b.drop_first()[i - 1]);
                    }
                }
            }
            if forall|i: int| 0 <= i < b.len() ==> b[i] == 0 {
                assert forall|i: int| 0 <= i < b.drop_first().len() implies b.drop_first()[i] == 0 by {
                    assert(b.drop_first()[i] == b[i + 1]);
                }
            }
        }
    }
}

/// The text of a key: its leading `1`s stand for its leading zero bytes,
/// and the first character after them is not `1`.
proof fn lemma_text_shape(key: Seq<u8>)
    ensures
        leading_zeros(key) <= key.len(),
        base58_text(key).len() >= leading_zeros(key),
        forall|i: int| 0 <= i < leading_zeros(key) ==> #[trigger] base58_text(key)[i] == '1',
        leading_zeros(key) < key.len() ==> base58_text(key).len() > leading_zeros(key)
            && base58_text(key)[leading_zeros(key) as int] != '1',
        leading_zeros(key) == key.len() ==> base58_text(key).len() == key.len(),
{
    let v = be_value(key);
    lemma_leading_zeros(key);
    lemma_be_value_zero(key);
    lemma_digits(v);
    let z = leading_zeros(key);
    if z < key.len() {
        assert(v > 0);
        let d = base58_digits(v);
        assert(base58_text(key)[z as int] == base58_char(d[0]));
        lemma_base58_char(d[0], 0);
    }
}

/// Keys of one length are told apart by their base58 text.
pub proof fn lemma_base58_text_injective(a: Seq<u8>, b: Seq<u8>)
    requires
        a.len() == b.len(),
        base58_text(a) == base58_text(b),
    ensures
        a == b,
{
    lemma_text_shape(a);
    lemma_text_shape(b);
    let za = leading_zeros(a);
    let zb = leading_zeros(b);
    let t = base58_text(a);
    if za < zb {
        assert(t[za as int] == '1');
    } else if zb < za {
        assert(t[zb as int] == '1');
    }
    assert(za == zb);
    let va = be_value(a);
    let vb = be_value(b);
    lemma_digits(va);
    lemma_digits(vb);
    let da = base58_digits(va);
    let db = base58_digits(vb);
    let ca = da.map_values(|d: nat| base58_char(d));
    let cb = db.map_values(|d: nat| base58_char(d));
    assert(ca =~= t.subrange(za as int, t.len() as int));
    assert(cb =~= t.subrange(za as int, t.len() as int));
    assert(da =~= db) by {
        assert forall|i: int| 0 <= i < da.len() implies da[i] == db[i] by {
            assert(ca[i] == cb[i]);
            lemma_base58_char(da[i], db[i]);
        }
    }
    lemma_be_value_injective(a, b);
}


/// An address's base58 text parses back to the address.
pub proof fn lemma_text_parses_back(k: [u8; 32], r: Option<[u8; 32]>)
    requires
        parses_to(base58_text(k@), r),
    ensures
        r matches Some(p) && p@ == k@,
{
    match r {
        Some(p) => {
            assert(p@.len() == 32 && k@.len() == 32);
            lemma_base58_text_injective(p@, k@);
        },
        None => {
            assert(base58_text(k@) != base58_text(k@));
        },
    }
}

} // verus!
