use vstd::prelude::*;
use vstd::arithmetic::div_mod::{lemma_add_mod_noop, lemma_small_mod};

verus! {

/// 2^64: the accumulator of the checksum is a `u64` that wraps at this modulus.
pub open spec fn u64_modulus() -> nat {
    0x1_0000_0000_0000_0000
}

/// The big-endian 16-bit word made of two bytes.
pub open spec fn be_word(hi: u8, lo: u8) -> nat {
    hi as nat * 256 + lo as nat
}

/// The sum of the first `n` big-endian 16-bit words of `s`.
pub open spec fn word_sum(s: Seq<u8>, n: nat) -> nat
    decreases n,
{
    if n == 0 {
        0
    } else {
        word_sum(s, (n - 1) as nat) + be_word(s[2 * n - 2], s[2 * n - 1])
    }
}

/// End-around-carry folding of a sum into 16 bits: the high part is added
/// to the low 16 bits until nothing is left above them.
pub open spec fn fold16(x: nat) -> nat
    decreases x,
{
    if x < 65536 {
        x
    } else {
        fold16(x % 65536 + x / 65536)
    }
}

/// The Internet checksum (one's complement of the one's complement sum of the
/// big-endian 16-bit words) of an even-length byte sequence, computed with a
/// 64-bit accumulator.
pub open spec fn checksum_of(s: Seq<u8>) -> u16 {
    (65535 - fold16(word_sum(s, s.len() / 2) % u64_modulus())) as u16
}

/// `s` with the 16-bit checksum of `s` written big-endian into bytes 2 and 3.
pub open spec fn with_checksum(s: Seq<u8>) -> Seq<u8> {
    let c = checksum_of(s);
    s.update(2, (c / 256) as u8).update(3, (c % 256) as u8)
}

/// The ICMP echo request (type 8, code 0) that the launcher sends to a game
/// server, before its checksum is filled in: identifier bytes `id_hi` and
/// `id_lo`, sequence number 1, an 8-byte timestamp field and 40 bytes of
/// payload 0x10 ..= 0x37.
pub open spec fn echo_template(id_hi: u8, id_lo: u8) -> Seq<u8> {
    seq![
        0x08u8, 0x00u8, 0x00u8, 0x00u8, id_hi, id_lo, 0x00u8, 0x01u8,
        0x02u8, 0x59u8, 0x9du8, 0x5cu8, 0x00u8, 0x00u8, 0x00u8, 0x00u8,
        0x98u8, 0x61u8, 0x0cu8, 0x00u8, 0x00u8, 0x00u8, 0x00u8, 0x00u8,
        0x10u8, 0x11u8, 0x12u8, 0x13u8, 0x14u8, 0x15u8, 0x16u8, 0x17u8,
        0x18u8, 0x19u8, 0x1au8, 0x1bu8, 0x1cu8, 0x1du8, 0x1eu8, 0x1fu8,
        0x20u8, 0x21u8, 0x22u8, 0x23u8, 0x24u8, 0x25u8, 0x26u8, 0x27u8,
        0x28u8, 0x29u8, 0x2au8, 0x2bu8, 0x2cu8, 0x2du8, 0x2eu8, 0x2fu8,
        0x30u8, 0x31u8, 0x32u8, 0x33u8, 0x34u8, 0x35u8, 0x36u8, 0x37u8,
    ]
}

/// The finished echo request: the template with its checksum filled in.
pub open spec fn echo_request(id_hi: u8, id_lo: u8) -> Seq<u8> {
    with_checksum(echo_template(id_hi, id_lo))
}

/// Whether a received IPv4 datagram answers `request`: past the 20-byte IP
/// header and the first 16 bytes of the ICMP message, the reply carries the
/// request's bytes from offset 16 on.
pub open spec fn echoes(reply: Seq<u8>, request: Seq<u8>) -> bool {
    reply.subrange(36, 36 + request.len() - 16) == request.subrange(16, request.len() as int)
}

proof fn lemma_fold16_bounds(x: nat)
    ensures
        fold16(x) <= 65535,
        fold16(x) % 65535 == x % 65535,
        x > 0 ==> fold16(x) > 0,
    decreases x,
{
    if x >= 65536 {
        let q = x / 65536;
        let r = x % 65536;
        assert(x == 65536 * q + r);
        assert(x == (r + q) + 65535 * q);
        vstd::arithmetic::div_mod::lemma_mod_multiples_vanish(q as int, (r + q) as int, 65535);
        lemma_fold16_bounds(r + q);
    }
}

proof fn lemma_word_sum_bound(s: Seq<u8>, n: nat)
    ensures
        word_sum(s, n) <= n * 65535,
    decreases n,
{
    if n > 0 {
        lemma_word_sum_bound(s, (n - 1) as nat);
        let hi = s[2 * n - 2];
        let lo = s[2 * n - 1];
        assert(be_word(hi, lo) <= 65535);
    }
}

/// The words before and after position `k` are summed the same way in `s`
/// and in `t`, which differs from `s` only in the word at `k`.
proof fn lemma_word_sum_update(s: Seq<u8>, t: Seq<u8>, k: nat, n: nat)
    requires
        s.len() == t.len(),
        2 * n <= s.len(),
        2 * k + 1 < s.len(),
        forall|i: int| 0 <= i < s.len() && i != 2 * k && i != 2 * k + 1 ==> s[i] == t[i],
    ensures
        word_sum(t, n) == word_sum(s, n) + if n > k {
            be_word(t[2 * k as int], t[(2 * k + 1) as int]) - be_word(s[2 * k as int], s[(2 * k + 1) as int])
        } else {
            0
        },
    decreases n,
{
    if n > 0 {
        lemma_word_sum_update(s, t, k, (n - 1) as nat);
        if n - 1 != k {
            assert(s[2 * n - 2] == t[2 * n - 2]);
            assert(s[2 * n - 1] == t[2 * n - 1]);
        }
    }
}

/// Law: a sequence whose checksum bytes (2 and 3) were zero, once its
/// checksum is written there, has checksum zero: the test a receiver applies
/// to an ICMP message holds of every message built this way. It is stated for
/// even-length sequences whose word sum stays clear of the 64-bit wrap.
pub proof fn lemma_with_checksum_verifies(s: Seq<u8>)
    requires
        s.len() % 2 == 0,
        s.len() >= 4,
        s[2] == 0,
        s[3] == 0,
        word_sum(s, s.len() / 2) + 65535 < u64_modulus(),
    ensures
        checksum_of(with_checksum(s)) == 0,
{
    let n = s.len() / 2;
    let t = with_checksum(s);
    let total = word_sum(s, n);
    lemma_small_mod(total, u64_modulus());
    lemma_fold16_bounds(total);
    let f = fold16(total);
    let c = checksum_of(s);
    assert(c == 65535 - f);
    assert(t[2] == (c / 256) as u8 && t[3] == (c % 256) as u8);
    assert(be_word(t[2], t[3]) == c);
    assert(be_word(s[2], s[3]) == 0);
    lemma_word_sum_update(s, t, 1, n);
    let total2 = word_sum(t, n);
    assert(total2 == total + c);
    lemma_small_mod(total2, u64_modulus());
    lemma_fold16_bounds(total2);
    let g = fold16(total2);
    // total == 65535 * a + f % 65535, so total2 is a multiple of 65535.
    let a = total / 65535;
    let b = f / 65535;
    assert(total == 65535 * a + total % 65535);
    assert(f == 65535 * b + f % 65535);
    assert(total2 == 65535 * (a - b + 1));
    vstd::arithmetic::div_mod::lemma_mod_multiples_basic(a - b + 1, 65535);
    assert((65535 * (a - b + 1)) % 65535 == 0) by {
        vstd::arithmetic::mul::lemma_mul_is_commutative(a - b + 1, 65535);
    }
    assert(total2 > 0);
    assert(g % 65535 == 0);
    assert(g == 65535);
    assert(t.len() == s.len());
}

/// Law: every echo request that the launcher builds passes the receiver's
/// checksum test.
pub proof fn lemma_echo_request_verifies(id_hi: u8, id_lo: u8)
    ensures
        checksum_of(echo_request(id_hi, id_lo)) == 0,
        echo_request(id_hi, id_lo).len() == 64,
{
    let s = echo_template(id_hi, id_lo);
    lemma_word_sum_bound(s, 32);
    lemma_with_checksum_verifies(s);
}

/// Law: a genuine reply is recognised. Whatever IP header and ICMP reply
/// header come first, and whatever follows, a datagram that carries the
/// request's bytes from offset 16 on right after those headers echoes the
/// request.
pub proof fn lemma_genuine_reply_echoes(
    ip_header: Seq<u8>,
    reply_header: Seq<u8>,
    request: Seq<u8>,
    trailer: Seq<u8>,
)
    requires
        ip_header.len() == 20,
        reply_header.len() == 16,
        request.len() >= 16,
    ensures
        echoes(
            ip_header + reply_header + request.subrange(16, request.len() as int) + trailer,
            request,
        ),
{
    let reply = ip_header + reply_header + request.subrange(16, request.len() as int) + trailer;
    assert(reply.subrange(36, 36 + request.len() - 16) =~= request.subrange(
        16,
        request.len() as int,
    ));
}

/// The Internet checksum of `data` (RFC 1071), summed into a wrapping 64-bit
/// accumulator, folded to 16 bits and complemented.
pub fn internet_checksum(data: &[u8]) -> (c: u16)
    requires
        data@.len() % 2 == 0,
    ensures
        c == checksum_of(data@),
{
    let mut sum: u64 = 0;
    let mut i: usize = 0;
    while i < data.len()
        invariant
            i <= data@.len(),
            i % 2 == 0,
            data@.len() % 2 == 0,
            sum as nat == word_sum(data@, (i / 2) as nat) % u64_modulus(),
        decreases data@.len() - i,
    {
        let word: u64 = (data[i] as u64) * 256 + (data[i + 1] as u64);
        proof {
            let m = u64_modulus() as int;
            let before = word_sum(data@, (i / 2) as nat);
            assert(((i + 2) / 2) as nat == (i / 2) as nat + 1);
            assert(word_sum(data@, ((i + 2) / 2) as nat) == before + word);
            lemma_add_mod_noop(before as int, word as int, m);
            lemma_small_mod(word as nat, m as nat);
            lemma_small_mod(sum as nat, m as nat);
            lemma_add_mod_noop(sum as int, word as int, m);
            if sum + word >= m {
                lemma_small_mod((sum + word - m) as nat, m as nat);
                vstd::arithmetic::div_mod::lemma_mod_sub_multiples_vanish((sum + word) as int, m);
            } else {
                lemma_small_mod((sum + word) as nat, m as nat);
            }
        }
        sum = sum.wrapping_add(word);
        i = i + 2;
    }
    let ghost total = sum as nat;
    while sum >> 16u64 != 0
        invariant
            fold16(sum as nat) == fold16(total),
        decreases sum,
    {
        let lo = sum & 0xffff;
        let hi = sum >> 16u64;
        assert(lo == sum % 65536 && hi == sum / 65536) by (bit_vector)
            requires
                lo == sum & 0xffff,
                hi == sum >> 16u64,
        ;
        assert(sum >= 65536) by (bit_vector)
            requires
                sum >> 16u64 != 0,
        ;
        sum = lo + hi;
    }
    assert(sum < 65536) by (bit_vector)
        requires
            sum >> 16u64 == 0,
    ;
    let folded = sum ^ 0xffff;
    assert(folded == 65535 - sum) by (bit_vector)
        requires
            sum < 65536,
            folded == sum ^ 0xffff,
    ;
    folded as u16
}

/// Builds the echo request with the identifier bytes `id_hi`, `id_lo`.
pub fn build_echo_request(id_hi: u8, id_lo: u8) -> (packet: Vec<u8>)
    ensures
        packet@ == echo_request(id_hi, id_lo),
{
    let mut code: Vec<u8> = vec![
        0x08u8, 0x00u8, 0x00u8, 0x00u8, id_hi, id_lo, 0x00u8, 0x01u8,
        0x02u8, 0x59u8, 0x9du8, 0x5cu8, 0x00u8, 0x00u8, 0x00u8, 0x00u8,
        0x98u8, 0x61u8, 0x0cu8, 0x00u8, 0x00u8, 0x00u8, 0x00u8, 0x00u8,
        0x10u8, 0x11u8, 0x12u8, 0x13u8, 0x14u8, 0x15u8, 0x16u8, 0x17u8,
        0x18u8, 0x19u8, 0x1au8, 0x1bu8, 0x1cu8, 0x1du8, 0x1eu8, 0x1fu8,
        0x20u8, 0x21u8, 0x22u8, 0x23u8, 0x24u8, 0x25u8, 0x26u8, 0x27u8,
        0x28u8, 0x29u8, 0x2au8, 0x2bu8, 0x2cu8, 0x2du8, 0x2eu8, 0x2fu8,
        0x30u8, 0x31u8, 0x32u8, 0x33u8, 0x34u8, 0x35u8, 0x36u8, 0x37u8,
    ];
    assert(code@ =~= echo_template(id_hi, id_lo));
    let c = internet_checksum(code.as_slice());
    code.set(2, (c / 256) as u8);
    code.set(3, (c % 256) as u8);
    assert(code@ =~= echo_request(id_hi, id_lo));
    code
}

/// A random byte, from `rand::random::<u8>()`.
/// Nothing is stated of the byte: it is drawn by the thread-local generator.
#[verifier::external_body]
fn random_byte() -> u8 {
    rand::random::<u8>()
}

/// Builds an echo request with a random identifier, as the launcher does for
/// each ping.
pub fn new_echo_request() -> (packet: Vec<u8>)
    ensures
        exists|id_hi: u8, id_lo: u8| packet@ == #[trigger] echo_request(id_hi, id_lo),
        packet@.len() == 64,
{
    let id_hi = random_byte();
    let id_lo = random_byte();
    let packet = build_echo_request(id_hi, id_lo);
    proof {
        lemma_echo_request_verifies(id_hi, id_lo);
    }
    packet
}

/// Whether a ping succeeded: a datagram was received (`received`) and it
/// echoes `request` (see `echoes`).
pub fn is_echo_reply(received: bool, reply: &[u8], request: &[u8]) -> (b: bool)
    requires
        request@.len() >= 16,
        reply@.len() >= 20 + request@.len(),
    ensures
        b == (received && echoes(reply@, request@)),
{
    if !received {
        return false;
    }
    let n = request.len() - 16;
    let reply_len = reply.len();
    let ghost echoed = reply@.subrange(36, 36 + request@.len() - 16);
    let ghost expected = request@.subrange(16, request@.len() as int);
    let mut j: usize = 0;
    while j < n
        invariant
            n == request@.len() - 16,
            reply_len == reply@.len(),
            request@.len() >= 16,
            reply@.len() >= 20 + request@.len(),
            echoed == reply@.subrange(36, 36 + request@.len() - 16),
            expected == request@.subrange(16, request@.len() as int),
            j <= n,
            forall|k: int| 0 <= k < j ==> echoed[k] == expected[k],
        decreases n - j,
    {
        if reply[36 + j] != request[16 + j] {
            assert(echoed[j as int] != expected[j as int]);
            return false;
        }
        j = j + 1;
    }
    assert(echoed =~= expected);
    true
}

} // verus!
