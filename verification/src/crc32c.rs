//! CRC-32C (Castagnoli polynomial, reflected) as used by the checkpoint
//! control file.
//!
//! The checksum register is specified bit by bit (`crc32c_shift`), and the
//! table-driven implementation is proved to agree with it byte for byte.
use vstd::prelude::*;

verus! {

/// Checksum type of the control file.
pub type PgCrc32c = u32;

/// The reflected Castagnoli polynomial.
pub const CRC32C_POLY: u32 = 0x82F63B78;

/// One bit step of the reflected CRC register.
pub open spec fn crc32c_shift(r: u32) -> u32 {
    if r & 1 != 0 {
        (r >> 1u32) ^ 0x82F63B78u32
    } else {
        r >> 1u32
    }
}

/// Eight bit steps of the CRC register: the work done for one byte.
pub open spec fn crc32c_shift8(r: u32) -> u32 {
    crc32c_shift(
        crc32c_shift(
            crc32c_shift(crc32c_shift(crc32c_shift(crc32c_shift(crc32c_shift(crc32c_shift(r)))))),
        ),
    )
}

/// The register after feeding one byte.
pub open spec fn crc32c_byte(r: u32, b: u8) -> u32 {
    crc32c_shift8(r ^ (b as u32))
}

/// The register after feeding `data`, starting from `r`.
pub open spec fn crc32c_register(r: u32, data: Seq<u8>) -> u32
    decreases data.len(),
{
    if data.len() == 0 {
        r
    } else {
        crc32c_byte(crc32c_register(r, data.drop_last()), data.last())
    }
}

/// What `comp_crc32c` computes: the register is started from the
/// complement of `crc`, fed `data`, and complemented again.
pub open spec fn spec_comp_crc32c(crc: u32, data: Seq<u8>) -> u32 {
    !crc32c_register(!crc, data)
}

/// The CRC-32C of `data`: the register started with all bits set, fed
/// `data`, and complemented.
pub open spec fn spec_crc32c(data: Seq<u8>) -> u32 {
    !crc32c_register(0xFFFF_FFFFu32, data)
}

/// The table entry for byte value `i`.
pub open spec fn crc32c_table_entry(i: u32) -> u32 {
    crc32c_shift8(i)
}

/// One bit step of the register.
fn shift_step(r: u32) -> (s: u32)
    ensures
        s == crc32c_shift(r),
{
    if r & 1 != 0 {
        (r >> 1u32) ^ CRC32C_POLY
    } else {
        r >> 1u32
    }
}

/// Eight bit steps of the register.
fn shift8(r: u32) -> (s: u32)
    ensures
        s == crc32c_shift8(r),
{
    let mut x = r;
    x = shift_step(x);
    x = shift_step(x);
    x = shift_step(x);
    x = shift_step(x);
    x = shift_step(x);
    x = shift_step(x);
    x = shift_step(x);
    x = shift_step(x);
    x
}

/// The 256-entry lookup table: entry `i` is the register after eight bit
/// steps from `i`.
fn crc32c_table() -> (t: Vec<u32>)
    ensures
        t.len() == 256,
        forall|i: int| 0 <= i < 256 ==> #[trigger] t[i] == crc32c_table_entry(i as u32),
{
    let mut t: Vec<u32> = Vec::new();
    let mut i: u32 = 0;
    while i < 256
        invariant
            i <= 256,
            t.len() == i,
            forall|k: int| 0 <= k < i ==> #[trigger] t[k] == crc32c_table_entry(k as u32),
        decreases 256 - i,
    {
        t.push(shift8(i));
        i = i + 1;
    }
    t
}

/// A table lookup does the work of one byte: eight bit steps on the low
/// byte, combined with the rest of the register shifted right by eight.
proof fn lemma_table_step(r: u32, b: u8)
    ensures
        crc32c_table_entry((r ^ (b as u32)) & 0xFF) ^ (r >> 8u32) == crc32c_byte(r, b),
{
    let x: u32 = r ^ (b as u32);
    assert(crc32c_shift8(x & 0xFF) ^ (x >> 8u32) == crc32c_shift8(x)) by (bit_vector);
    assert((r ^ (b as u32)) >> 8u32 == r >> 8u32) by (bit_vector);
}

/// Feeding `a` then `b` is feeding `a + b`.
pub proof fn lemma_register_concat(r: u32, a: Seq<u8>, b: Seq<u8>)
    ensures
        crc32c_register(crc32c_register(r, a), b) == crc32c_register(r, a + b),
    decreases b.len(),
{
    if b.len() == 0 {
        assert(a + b =~= a);
    } else {
        lemma_register_concat(r, a, b.drop_last());
        assert((a + b).drop_last() =~= a + b.drop_last());
        assert((a + b).last() == b.last());
    }
}

/// Initializes a CRC-32C state: zero.
pub fn init_crc32c() -> (r: PgCrc32c)
    ensures
        r == 0,
{
    0
}

/// Updates a CRC-32C state with `data`: the input is complemented, the
/// register is fed `data`, and the result is complemented.  The value can
/// be fed to further calls, continuing the same checksum; from the initial
/// state it is the CRC-32C of all the data fed (`lemma_crc32c_from_init`).
pub fn comp_crc32c(crc: PgCrc32c, data: &[u8]) -> (r: PgCrc32c)
    ensures
        r == spec_comp_crc32c(crc, data@),
{
    let table = crc32c_table();
    let mut result: u32 = !crc;
    let mut i: usize = 0;
    while i < data.len()
        invariant
            i <= data.len(),
            table.len() == 256,
            forall|k: int| 0 <= k < 256 ==> #[trigger] table[k] == crc32c_table_entry(k as u32),
            result == crc32c_register(!crc, data@.take(i as int)),
        decreases data.len() - i,
    {
        let byte = data[i];
        let idx: u32 = (result ^ (byte as u32)) & 0xFF;
        assert(((result ^ (byte as u32)) & 0xFF) < 256) by (bit_vector);
        proof {
            lemma_table_step(result, byte);
            assert(data@.take(i + 1).drop_last() =~= data@.take(i as int));
            assert(data@.take(i + 1).last() == byte);
        }
        result = table[idx as usize] ^ (result >> 8u32);
        i = i + 1;
    }
    assert(data@.take(data.len() as int) =~= data@);
    !result
}

/// Finalizes a CRC-32C state: the bitwise complement.
pub fn fin_crc32c(crc: PgCrc32c) -> (r: PgCrc32c)
    ensures
        r == !crc,
{
    !crc
}

/// Incremental use: updating with `a` and then with `b` gives the same state
/// as updating once with `a + b`; updating with nothing changes nothing.
pub proof fn lemma_comp_crc32c_incremental(crc: u32, a: Seq<u8>, b: Seq<u8>)
    ensures
        spec_comp_crc32c(spec_comp_crc32c(crc, a), b) == spec_comp_crc32c(crc, a + b),
        spec_comp_crc32c(crc, Seq::<u8>::empty()) == crc,
{
    let x = crc32c_register(!crc, a);
    assert(!(!x) == x) by (bit_vector);
    assert(!(!crc) == crc) by (bit_vector);
    lemma_register_concat(!crc, a, b);
}

/// From the initial state, updating with `a` and then with `b` gives the
/// CRC-32C of `a + b`.
pub proof fn lemma_crc32c_from_init(a: Seq<u8>, b: Seq<u8>)
    ensures
        spec_comp_crc32c(spec_comp_crc32c(0, a), b) == spec_crc32c(a + b),
{
    lemma_comp_crc32c_incremental(0, a, b);
    assert(!0u32 == 0xFFFF_FFFFu32) by (bit_vector);
}

/// Finalizing twice gives back the state.
pub proof fn lemma_fin_crc32c_involution(crc: u32)
    ensures
        !(!crc) == crc,
{
    assert(!(!crc) == crc) by (bit_vector);
}

} // verus!
