//! The deterministic entropy source handed to `getrandom` on targets without
//! an operating-system generator.
//!
//! The byte stream is a 64-bit xorshift generator (shifts 13, 7, 17) started
//! from a fixed seed: every request of `n` bytes receives the same `n` bytes.
use vstd::prelude::*;

verus! {

/// The fixed seed of the generator.
pub const XORSHIFT_SEED: u64 = 0x1234_5678_90ab_cdef;

/// One step of the xorshift generator.
pub open spec fn xorshift_next(s: u64) -> u64 {
    let a = s ^ (s << 13u64);
    let b = a ^ (a >> 7u64);
    b ^ (b << 17u64)
}

/// The generator state after `n` steps from the seed.
pub open spec fn xorshift_state(n: nat) -> u64
    decreases n,
{
    if n == 0 {
        XORSHIFT_SEED
    } else {
        xorshift_next(xorshift_state((n - 1) as nat))
    }
}

/// The `i`-th byte of the stream: the low byte of the state after `i + 1` steps.
pub open spec fn xorshift_byte(i: nat) -> u8 {
    (xorshift_state(i + 1) & 0xffu64) as u8
}

/// The first `len` bytes of the stream.
pub open spec fn xorshift_bytes(len: nat) -> Seq<u8> {
    Seq::new(len, |i: int| xorshift_byte(i as nat))
}

/// `out` is what one generator, seeded once with `XORSHIFT_SEED` and stepped
/// once before each byte, hands out: `states[0]` is the seed, each state is
/// one xorshift step from the one before, and byte `k` is the low byte of
/// state `k + 1`.
pub open spec fn is_xorshift_run(states: Seq<u64>, out: Seq<u8>) -> bool {
    &&& states.len() == out.len() + 1
    &&& states[0] == XORSHIFT_SEED
    &&& forall|k: int|
        0 <= k < out.len() ==> states[k + 1] == xorshift_next(states[k]) && #[trigger] out[k] == (
        states[k + 1] & 0xffu64) as u8
}

/// `out` is the output of a single run of the generator from the seed.
pub open spec fn is_xorshift_stream(out: Seq<u8>) -> bool {
    exists|states: Seq<u64>| is_xorshift_run(states, out)
}

/// Every prefix of the stream is the output of one generator run from the
/// seed: no byte comes from a reseeded or skipped state.
pub proof fn lemma_stream_is_one_run(n: nat)
    ensures
        is_xorshift_stream(xorshift_bytes(n)),
{
    let states = Seq::new(n + 1, |k: int| xorshift_state(k as nat));
    let out = xorshift_bytes(n);
    assert forall|k: int| 0 <= k < out.len() implies states[k + 1] == xorshift_next(states[k])
        && #[trigger] out[k] == (states[k + 1] & 0xffu64) as u8 by {
        assert(xorshift_state((k + 1) as nat) == xorshift_next(xorshift_state(k as nat)));
    }
    assert(is_xorshift_run(states, out));
}

/// Advances the generator state by one step.
pub fn xorshift_step(s: u64) -> (r: u64)
    ensures
        r == xorshift_next(s),
{
    let mut s = s;
    s ^= s << 13u64;
    s ^= s >> 7u64;
    s ^= s << 17u64;
    s
}

/// Fills `buf` with the first `buf.len()` bytes of the stream.
pub fn fill_xorshift(buf: &mut [u8])
    ensures
        final(buf)@ == xorshift_bytes(old(buf)@.len()),
        is_xorshift_stream(final(buf)@),
{
    let len = buf.len();
    let mut s: u64 = XORSHIFT_SEED;
    let mut i: usize = 0;
    while i < len
        invariant
            len == buf@.len(),
            len == old(buf)@.len(),
            i <= len,
            s == xorshift_state(i as nat),
            forall|j: int| 0 <= j < i ==> buf@[j] == xorshift_byte(j as nat),
        decreases len - i,
    {
        s = xorshift_step(s);
        buf[i] = (s & 0xffu64) as u8;
        i = i + 1;
    }
    assert(buf@ =~= xorshift_bytes(len as nat));
    proof {
        lemma_stream_is_one_run(len as nat);
    }
}

/// Why a request for random bytes is refused.
#[derive(Debug, Clone, Copy, PartialEq, Eq, Structural)]
pub enum EntropyError {
    /// The request cannot be served (a null destination for a non-empty
    /// request); `getrandom` calls it `Error::UNSUPPORTED`.
    Unsupported,
}

/// Decides a request of `len` bytes at a destination that is null or not:
/// `Ok(false)` when there is nothing to write (`len == 0`, whatever the
/// destination), `Unsupported` for a null destination of a non-empty
/// request, and `Ok(true)` when the destination must be filled with
/// `fill_xorshift`.
pub fn check_request(len: usize, dest_is_null: bool) -> (r: Result<bool, EntropyError>)
    ensures
        len == 0 ==> r == Ok::<bool, EntropyError>(false),
        len != 0 && dest_is_null ==> r == Err::<bool, EntropyError>(EntropyError::Unsupported),
        len != 0 && !dest_is_null ==> r == Ok::<bool, EntropyError>(true),
{
    if len == 0 {
        Ok(false)
    } else if dest_is_null {
        Err(EntropyError::Unsupported)
    } else {
        Ok(true)
    }
}

/// The stream does not depend on the request: the bytes handed out for a
/// request of `n` bytes are the first `n` bytes handed out for any longer
/// request.
pub proof fn lemma_stream_prefix(n: nat, m: nat)
    requires
        n <= m,
    ensures
        xorshift_bytes(n) == xorshift_bytes(m).take(n as int),
{
    assert(xorshift_bytes(n) =~= xorshift_bytes(m).take(n as int));
}

/// A xorshift step maps a nonzero state to a nonzero state.
pub proof fn lemma_xorshift_next_nonzero(s: u64)
    requires
        s != 0,
    ensures
        xorshift_next(s) != 0,
{
    assert(s != 0 ==> ((s ^ (s << 13u64)) ^ ((s ^ (s << 13u64)) >> 7u64)) ^ (((s ^ (s << 13u64))
        ^ ((s ^ (s << 13u64)) >> 7u64)) << 17u64) != 0) by (bit_vector);
}

/// The generator never reaches the all-zero state, from which it would emit
/// only zero bytes.
pub proof fn lemma_state_nonzero(n: nat)
    ensures
        xorshift_state(n) != 0,
    decreases n,
{
    if n > 0 {
        lemma_state_nonzero((n - 1) as nat);
        lemma_xorshift_next_nonzero(xorshift_state((n - 1) as nat));
    }
}

} // verus!
