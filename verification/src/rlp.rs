//! What RLP encodings are, and why no encoding is a prefix of another.

use vstd::prelude::*;

use crate::primitives::{lemma_u256_injective, AccessListEntry, Address, TxKind, B256, U256};

verus! {

/// Why an RLP item could not be decoded.
#[derive(Clone, Copy, Debug, PartialEq, Eq)]
pub enum RlpError {
    /// Numeric overflow.
    Overflow,
    /// Leading zero disallowed.
    LeadingZero,
    /// Overran input while decoding.
    InputTooShort,
    /// Expected single byte, but got invalid value.
    NonCanonicalSingleByte,
    /// Expected size, but got invalid value.
    NonCanonicalSize,
    /// Expected a payload of a specific size, got an unexpected size.
    UnexpectedLength,
    /// Expected another type, got a string instead.
    UnexpectedString,
    /// Expected another type, got a list instead.
    UnexpectedList,
    /// Got an unexpected number of items in a list.
    ListLengthMismatch { expected: usize, got: usize },
    /// An error with a message.
    Custom(&'static str),
}

/// First length that no longer fits the eight bytes of a long header.
pub const LENGTH_LIMIT: u128 = 0x1_0000_0000_0000_0000;

/// The minimal big-endian bytes of a number; zero has none.
pub open spec fn be_bytes(n: nat) -> Seq<u8>
    decreases n,
{
    if n == 0 {
        Seq::empty()
    } else {
        be_bytes(n / 256).push((n % 256) as u8)
    }
}

/// The number that big-endian bytes stand for.
pub open spec fn be_value(s: Seq<u8>) -> nat
    decreases s.len(),
{
    if s.len() == 0 {
        0
    } else {
        be_value(s.drop_last()) * 256 + s.last() as nat
    }
}

/// Header of a list or string whose payload has `n` bytes.
pub open spec fn rlp_header(list: bool, n: nat) -> Seq<u8> {
    if n < 56 {
        seq![((if list { 0xC0int } else { 0x80int }) + n) as u8]
    } else {
        seq![((if list { 0xF7int } else { 0xB7int }) + be_bytes(n).len()) as u8] + be_bytes(n)
    }
}

/// Encoding of a byte string: a byte below `0x80` is its own encoding.
pub open spec fn rlp_string(b: Seq<u8>) -> Seq<u8> {
    if b.len() == 1 && b[0] < 0x80 {
        b
    } else {
        rlp_header(false, b.len()) + b
    }
}

/// Encoding of a number: that of its minimal big-endian bytes.
pub open spec fn rlp_uint(n: nat) -> Seq<u8> {
    rlp_string(be_bytes(n))
}

/// Encoding of a list, given the encodings of its items one after the other.
pub open spec fn rlp_list(payload: Seq<u8>) -> Seq<u8> {
    rlp_header(true, payload.len()) + payload
}

pub proof fn lemma_be_roundtrip(n: nat)
    ensures
        be_value(be_bytes(n)) == n,
    decreases n,
{
    if n > 0 {
        lemma_be_roundtrip(n / 256);
        let b = be_bytes(n);
        assert(b.drop_last() =~= be_bytes(n / 256));
        assert(b.last() == (n % 256) as u8);
    }
}

pub proof fn lemma_be_injective(m: nat, n: nat)
    requires
        be_bytes(m) == be_bytes(n),
    ensures
        m == n,
{
    lemma_be_roundtrip(m);
    lemma_be_roundtrip(n);
}

/// 256 to the power `k`.
pub open spec fn pow256(k: nat) -> nat
    decreases k,
{
    if k == 0 {
        1
    } else {
        256 * pow256((k - 1) as nat)
    }
}

proof fn lemma_be_len_pow(n: nat, k: nat)
    requires
        n < pow256(k),
    ensures
        be_bytes(n).len() <= k,
    decreases k,
{
    if n > 0 {
        lemma_be_len_pow(n / 256, (k - 1) as nat);
    }
}

/// A number below two to the 64th has at most eight bytes, one below two to the 256th at most
/// thirty-two.
pub proof fn lemma_be_len(n: nat)
    ensures
        n > 0 ==> be_bytes(n).len() > 0,
        n < LENGTH_LIMIT ==> be_bytes(n).len() <= 8,
        n < 0x1_0000_0000_0000_0000_0000_0000_0000_0000_0000_0000_0000_0000_0000_0000_0000_0000
            ==> be_bytes(n).len() <= 32,
{
    reveal_with_fuel(pow256, 33);
    if n < LENGTH_LIMIT {
        lemma_be_len_pow(n, 8);
    }
    if n < pow256(32) {
        lemma_be_len_pow(n, 32);
    }
}

/// A header tells where it ends: from the bytes of a header and what follows, both are known.
pub proof fn lemma_header_prefix_free(
    l1: bool,
    n1: nat,
    x1: Seq<u8>,
    l2: bool,
    n2: nat,
    x2: Seq<u8>,
)
    requires
        n1 < LENGTH_LIMIT,
        n2 < LENGTH_LIMIT,
        rlp_header(l1, n1) + x1 == rlp_header(l2, n2) + x2,
    ensures
        l1 == l2,
        n1 == n2,
        x1 == x2,
{
    lemma_be_len(n1);
    lemma_be_len(n2);
    let s1 = rlp_header(l1, n1) + x1;
    let s2 = rlp_header(l2, n2) + x2;
    assert(s1[0] == rlp_header(l1, n1)[0]);
    assert(s2[0] == rlp_header(l2, n2)[0]);
    if n1 < 56 {
        assert(n2 < 56);
        assert(x1 =~= s1.skip(1));
        assert(x2 =~= s2.skip(1));
    } else {
        assert(n2 >= 56);
        let k = be_bytes(n1).len() as int;
        assert(l1 == l2);
        assert(be_bytes(n2).len() == k);
        assert(be_bytes(n1) =~= s1.subrange(1, 1 + k));
        assert(be_bytes(n2) =~= s2.subrange(1, 1 + k));
        lemma_be_injective(n1, n2);
        assert(x1 =~= s1.skip(1 + k));
        assert(x2 =~= s2.skip(1 + k));
    }
}

pub proof fn lemma_string_prefix_free(a: Seq<u8>, ra: Seq<u8>, b: Seq<u8>, rb: Seq<u8>)
    requires
        rlp_string(a) + ra == rlp_string(b) + rb,
        rlp_string(a).len() + ra.len() < LENGTH_LIMIT,
    ensures
        a == b,
        ra == rb,
{
    let s = rlp_string(a) + ra;
    let t = rlp_string(b) + rb;
    lemma_be_len(a.len());
    lemma_be_len(b.len());
    let one_a = a.len() == 1 && a[0] < 0x80;
    let one_b = b.len() == 1 && b[0] < 0x80;
    assert(t.len() == rlp_string(b).len() + rb.len());
    if one_a {
        assert(s[0] == a[0]);
        if !one_b {
            assert(t[0] == rlp_header(false, b.len())[0]);
        }
        assert(t[0] == b[0]);
        assert(a =~= s.subrange(0, 1));
        assert(b =~= t.subrange(0, 1));
        assert(ra =~= s.skip(1));
        assert(rb =~= t.skip(1));
    } else {
        assert(s[0] == rlp_header(false, a.len())[0]);
        if one_b {
            assert(t[0] == b[0]);
        }
        assert(!one_b);
        let x = a + ra;
        let y = b + rb;
        assert(s =~= rlp_header(false, a.len()) + x);
        assert(t =~= rlp_header(false, b.len()) + y);
        lemma_header_prefix_free(false, a.len(), x, false, b.len(), y);
        assert(a =~= x.subrange(0, a.len() as int));
        assert(b =~= y.subrange(0, a.len() as int));
        assert(ra =~= x.skip(a.len() as int));
        assert(rb =~= y.skip(a.len() as int));
    }
}

pub proof fn lemma_list_prefix_free(a: Seq<u8>, ra: Seq<u8>, b: Seq<u8>, rb: Seq<u8>)
    requires
        rlp_list(a) + ra == rlp_list(b) + rb,
        rlp_list(a).len() + ra.len() < LENGTH_LIMIT,
    ensures
        a == b,
        ra == rb,
{
    let x = a + ra;
    let y = b + rb;
    let s = rlp_list(a) + ra;
    let t = rlp_list(b) + rb;
    assert(t.len() == rlp_list(b).len() + rb.len());
    assert(s =~= rlp_header(true, a.len()) + x);
    assert(t =~= rlp_header(true, b.len()) + y);
    lemma_header_prefix_free(true, a.len(), x, true, b.len(), y);
    assert(a =~= x.subrange(0, a.len() as int));
    assert(b =~= y.subrange(0, a.len() as int));
    assert(ra =~= x.skip(a.len() as int));
    assert(rb =~= y.skip(a.len() as int));
}

pub proof fn lemma_add_assoc(a: Seq<u8>, b: Seq<u8>, c: Seq<u8>)
    ensures
        a + b + c == a + (b + c),
{
    assert(a + b + c =~= a + (b + c));
}

/// A value with an RLP encoding that shows where it ends.
pub trait RlpItem: Sized {
    /// The encoding.
    spec fn rlp(self) -> Seq<u8>;

    /// An encoding has at least one byte, and is known, with what follows it, from the bytes that
    /// it starts.
    proof fn lemma_prefix_free(a: Self, ra: Seq<u8>, b: Self, rb: Seq<u8>)
        requires
            a.rlp() + ra == b.rlp() + rb,
            a.rlp().len() + ra.len() < LENGTH_LIMIT,
        ensures
            a == b,
            ra == rb,
    ;

    proof fn lemma_nonempty(a: Self)
        ensures
            a.rlp().len() > 0,
    ;
}

/// Whether `s` is the encoding of `x` followed by `rest`.
pub open spec fn starts_with_item<T: RlpItem>(s: Seq<u8>, x: T, rest: Seq<u8>) -> bool {
    s == x.rlp() + rest
}

/// The value whose encoding `s` starts with, and what follows that encoding.
pub open spec fn split_item<T: RlpItem>(s: Seq<u8>) -> Option<(T, Seq<u8>)> {
    if exists|x: T, rest: Seq<u8>| starts_with_item(s, x, rest) {
        Some(choose|x: T, rest: Seq<u8>| starts_with_item(s, x, rest))
    } else {
        None
    }
}

/// Splitting takes off exactly the encoding that was put in front.
pub proof fn lemma_split_item<T: RlpItem>(x: T, rest: Seq<u8>)
    requires
        x.rlp().len() + rest.len() < LENGTH_LIMIT,
    ensures
        split_item::<T>(x.rlp() + rest) == Some((x, rest)),
{
    let s = x.rlp() + rest;
    assert(starts_with_item(s, x, rest));
    let (y, tail) = choose|y: T, tail: Seq<u8>| starts_with_item(s, y, tail);
    T::lemma_prefix_free(x, rest, y, tail);
}

/// What is split off is the front of the bytes, and shortens them.
pub proof fn lemma_split_item_parts<T: RlpItem>(s: Seq<u8>)
    requires
        split_item::<T>(s) is Some,
    ensures
        s == split_item::<T>(s)->Some_0.0.rlp() + split_item::<T>(s)->Some_0.1,
        split_item::<T>(s)->Some_0.1.len() < s.len(),
{
    let (x, rest) = split_item::<T>(s)->0;
    assert(starts_with_item(s, x, rest));
    T::lemma_nonempty(x);
}

/// Whether `s` starts with the header of an item with `n` payload bytes, all of them present, and
/// `rest` is what follows the header. A byte below `0x80` stands for itself and has no header.
pub open spec fn starts_with_header(s: Seq<u8>, list: bool, n: nat, rest: Seq<u8>) -> bool {
    ||| s.len() > 0 && s[0] < 0x80 && !list && n == 1 && rest == s
    ||| {
        &&& s == rlp_header(list, n) + rest
        &&& n <= rest.len()
        &&& !list && n == 1 ==> rest[0] >= 0x80
    }
}

/// The kind and payload length of the item that `s` starts with, and what follows its header.
pub open spec fn split_header(s: Seq<u8>) -> Option<(bool, nat, Seq<u8>)> {
    if exists|list: bool, n: nat, rest: Seq<u8>| starts_with_header(s, list, n, rest) {
        Some(choose|list: bool, n: nat, rest: Seq<u8>| starts_with_header(s, list, n, rest))
    } else {
        None
    }
}

/// A list header in front of its payload is what splitting finds.
pub proof fn lemma_split_list_header(payload: Seq<u8>, rest: Seq<u8>)
    requires
        rlp_list(payload).len() + rest.len() < LENGTH_LIMIT,
    ensures
        split_header(rlp_list(payload) + rest) == Some((true, payload.len(), payload + rest)),
{
    let s = rlp_list(payload) + rest;
    assert(s =~= rlp_header(true, payload.len()) + (payload + rest));
    assert(starts_with_header(s, true, payload.len(), payload + rest));
    lemma_split_header_unique(s, true, payload.len(), payload + rest);
}

/// At most one header starts a byte sequence.
pub proof fn lemma_split_header_unique(s: Seq<u8>, list: bool, n: nat, rest: Seq<u8>)
    requires
        starts_with_header(s, list, n, rest),
        s.len() < LENGTH_LIMIT,
    ensures
        split_header(s) == Some((list, n, rest)),
{
    let (l2, n2, rest2) = choose|l: bool, m: nat, r: Seq<u8>| starts_with_header(s, l, m, r);
    lemma_be_len(n);
    lemma_be_len(n2);
    if s[0] < 0x80 {
        if s == rlp_header(list, n) + rest && n <= rest.len() {
            assert(s[0] == rlp_header(list, n)[0]);
        }
        if s == rlp_header(l2, n2) + rest2 && n2 <= rest2.len() {
            assert(s[0] == rlp_header(l2, n2)[0]);
        }
    } else {
        lemma_header_prefix_free(list, n, rest, l2, n2, rest2);
    }
}

/// What follows a header is the tail of the bytes, and holds the payload.
pub proof fn lemma_split_header_parts(s: Seq<u8>)
    requires
        split_header(s) is Some,
    ensures
        split_header(s)->Some_0.1 <= split_header(s)->Some_0.2.len() <= s.len(),
        is_tail(split_header(s)->Some_0.2, s),
{
    let (list, n, rest) = split_header(s)->0;
    assert(starts_with_header(s, list, n, rest));
    if rest == s {
        assert(rest =~= s.skip(0));
    } else {
        assert(rest =~= s.skip(rlp_header(list, n).len() as int));
    }
}

/// Whether `rest` is what is left of `s` once some bytes are taken off its front.
pub open spec fn is_tail(rest: Seq<u8>, s: Seq<u8>) -> bool {
    rest.len() <= s.len() && rest == s.skip(s.len() - rest.len())
}

pub broadcast proof fn lemma_tail_transitive(a: Seq<u8>, b: Seq<u8>, c: Seq<u8>)
    requires
        #[trigger] is_tail(a, b),
        #[trigger] is_tail(b, c),
    ensures
        is_tail(a, c),
{
    assert(a =~= c.skip(c.len() - a.len()));
}

/// The encodings of the items of a sequence, one after the other.
pub open spec fn rlp_concat<T: RlpItem>(items: Seq<T>) -> Seq<u8>
    decreases items.len(),
{
    if items.len() == 0 {
        Seq::empty()
    } else {
        items[0].rlp() + rlp_concat(items.skip(1))
    }
}

/// The items are known from their concatenated encodings.
pub proof fn lemma_concat_injective<T: RlpItem>(a: Seq<T>, b: Seq<T>)
    requires
        rlp_concat(a) == rlp_concat(b),
        rlp_concat(a).len() < LENGTH_LIMIT,
    ensures
        a == b,
    decreases a.len(),
{
    if a.len() > 0 {
        T::lemma_nonempty(a[0]);
    }
    if b.len() > 0 {
        T::lemma_nonempty(b[0]);
    }
    if a.len() > 0 {
        assert(b.len() > 0);
        T::lemma_prefix_free(a[0], rlp_concat(a.skip(1)), b[0], rlp_concat(b.skip(1)));
        lemma_concat_injective(a.skip(1), b.skip(1));
        assert(a =~= seq![a[0]] + a.skip(1));
        assert(b =~= seq![b[0]] + b.skip(1));
    }
    assert(a =~= b);
}

/// Lists of items are known, with what follows, from the bytes that they start.
pub proof fn lemma_item_list_prefix_free<T: RlpItem>(
    a: Seq<T>,
    ra: Seq<u8>,
    b: Seq<T>,
    rb: Seq<u8>,
)
    requires
        rlp_list(rlp_concat(a)) + ra == rlp_list(rlp_concat(b)) + rb,
        rlp_list(rlp_concat(a)).len() + ra.len() < LENGTH_LIMIT,
    ensures
        a == b,
        ra == rb,
{
    lemma_list_prefix_free(rlp_concat(a), ra, rlp_concat(b), rb);
    lemma_concat_injective(a, b);
}

impl RlpItem for u8 {
    open spec fn rlp(self) -> Seq<u8> {
        rlp_uint(self as nat)
    }

    proof fn lemma_prefix_free(a: Self, ra: Seq<u8>, b: Self, rb: Seq<u8>) {
        lemma_string_prefix_free(be_bytes(a as nat), ra, be_bytes(b as nat), rb);
        lemma_be_injective(a as nat, b as nat);
    }

    proof fn lemma_nonempty(a: Self) {
    }
}

impl RlpItem for u64 {
    open spec fn rlp(self) -> Seq<u8> {
        rlp_uint(self as nat)
    }

    proof fn lemma_prefix_free(a: Self, ra: Seq<u8>, b: Self, rb: Seq<u8>) {
        lemma_string_prefix_free(be_bytes(a as nat), ra, be_bytes(b as nat), rb);
        lemma_be_injective(a as nat, b as nat);
    }

    proof fn lemma_nonempty(a: Self) {
    }
}

impl RlpItem for u128 {
    open spec fn rlp(self) -> Seq<u8> {
        rlp_uint(self as nat)
    }

    proof fn lemma_prefix_free(a: Self, ra: Seq<u8>, b: Self, rb: Seq<u8>) {
        lemma_string_prefix_free(be_bytes(a as nat), ra, be_bytes(b as nat), rb);
        lemma_be_injective(a as nat, b as nat);
    }

    proof fn lemma_nonempty(a: Self) {
    }
}

/// A flag is encoded as the number zero or one.
impl RlpItem for bool {
    open spec fn rlp(self) -> Seq<u8> {
        rlp_uint(if self { 1 } else { 0 })
    }

    proof fn lemma_prefix_free(a: Self, ra: Seq<u8>, b: Self, rb: Seq<u8>) {
        let m: nat = if a { 1 } else { 0 };
        let n: nat = if b { 1 } else { 0 };
        lemma_string_prefix_free(be_bytes(m), ra, be_bytes(n), rb);
        lemma_be_injective(m, n);
    }

    proof fn lemma_nonempty(a: Self) {
    }
}

impl RlpItem for U256 {
    open spec fn rlp(self) -> Seq<u8> {
        rlp_uint(self.as_nat())
    }

    proof fn lemma_prefix_free(a: Self, ra: Seq<u8>, b: Self, rb: Seq<u8>) {
        lemma_string_prefix_free(be_bytes(a.as_nat()), ra, be_bytes(b.as_nat()), rb);
        lemma_be_injective(a.as_nat(), b.as_nat());
        lemma_u256_injective(a, b);
    }

    proof fn lemma_nonempty(a: Self) {
    }
}

/// A sequence of bytes is encoded as one string.
impl RlpItem for Seq<u8> {
    open spec fn rlp(self) -> Seq<u8> {
        rlp_string(self)
    }

    proof fn lemma_prefix_free(a: Self, ra: Seq<u8>, b: Self, rb: Seq<u8>) {
        lemma_string_prefix_free(a, ra, b, rb);
    }

    proof fn lemma_nonempty(a: Self) {
    }
}

impl RlpItem for Address {
    open spec fn rlp(self) -> Seq<u8> {
        rlp_string(self.bytes@)
    }

    proof fn lemma_prefix_free(a: Self, ra: Seq<u8>, b: Self, rb: Seq<u8>) {
        lemma_string_prefix_free(a.bytes@, ra, b.bytes@, rb);
        lemma_same_array(a.bytes, b.bytes);
    }

    proof fn lemma_nonempty(a: Self) {
    }
}

impl RlpItem for B256 {
    open spec fn rlp(self) -> Seq<u8> {
        rlp_string(self.bytes@)
    }

    proof fn lemma_prefix_free(a: Self, ra: Seq<u8>, b: Self, rb: Seq<u8>) {
        lemma_string_prefix_free(a.bytes@, ra, b.bytes@, rb);
        lemma_same_array(a.bytes, b.bytes);
    }

    proof fn lemma_nonempty(a: Self) {
    }
}

/// Creation is encoded as the empty string, a call as the address.
impl RlpItem for TxKind {
    open spec fn rlp(self) -> Seq<u8> {
        match self {
            TxKind::Create => rlp_string(Seq::empty()),
            TxKind::Call(to) => to.rlp(),
        }
    }

    proof fn lemma_prefix_free(a: Self, ra: Seq<u8>, b: Self, rb: Seq<u8>) {
        let x = match a {
            TxKind::Create => Seq::empty(),
            TxKind::Call(to) => to.bytes@,
        };
        let y = match b {
            TxKind::Create => Seq::empty(),
            TxKind::Call(to) => to.bytes@,
        };
        lemma_string_prefix_free(x, ra, y, rb);
        match (a, b) {
            (TxKind::Call(to), TxKind::Call(other)) => {
                lemma_same_array(to.bytes, other.bytes);
            },
            _ => {},
        }
    }

    proof fn lemma_nonempty(a: Self) {
    }
}

impl RlpItem for Seq<B256> {
    open spec fn rlp(self) -> Seq<u8> {
        rlp_list(rlp_concat(self))
    }

    proof fn lemma_prefix_free(a: Self, ra: Seq<u8>, b: Self, rb: Seq<u8>) {
        lemma_item_list_prefix_free(a, ra, b, rb);
    }

    proof fn lemma_nonempty(a: Self) {
    }
}

/// An entry of an access list is encoded as the list of its address and its storage keys.
impl RlpItem for AccessListEntry {
    open spec fn rlp(self) -> Seq<u8> {
        rlp_list(self.address.rlp() + self.storage_keys.rlp())
    }

    proof fn lemma_prefix_free(a: Self, ra: Seq<u8>, b: Self, rb: Seq<u8>) {
        let pa = a.address.rlp() + a.storage_keys.rlp();
        let pb = b.address.rlp() + b.storage_keys.rlp();
        lemma_list_prefix_free(pa, ra, pb, rb);
        Address::lemma_prefix_free(
            a.address,
            a.storage_keys.rlp(),
            b.address,
            b.storage_keys.rlp(),
        );
        let none = Seq::<u8>::empty();
        assert(a.storage_keys.rlp() + none =~= a.storage_keys.rlp());
        assert(b.storage_keys.rlp() + none =~= b.storage_keys.rlp());
        Seq::<B256>::lemma_prefix_free(a.storage_keys, none, b.storage_keys, none);
    }

    proof fn lemma_nonempty(a: Self) {
    }
}

impl RlpItem for Seq<AccessListEntry> {
    open spec fn rlp(self) -> Seq<u8> {
        rlp_list(rlp_concat(self))
    }

    proof fn lemma_prefix_free(a: Self, ra: Seq<u8>, b: Self, rb: Seq<u8>) {
        lemma_item_list_prefix_free(a, ra, b, rb);
    }

    proof fn lemma_nonempty(a: Self) {
    }
}

/// Arrays with the same bytes are the same array.
proof fn lemma_same_array<const N: usize>(a: [u8; N], b: [u8; N])
    requires
        a@ == b@,
    ensures
        a == b,
{
    assert forall|i: int| 0 <= i < N implies a[i] == b[i] by {
        assert(a@[i] == b@[i]);
    }
    assert(a =~= b);
}

} // verus!
