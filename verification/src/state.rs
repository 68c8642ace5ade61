use vstd::prelude::*;

use crate::params::ParameterDefinition;
use crate::registry::ParameterRegistry;
use crate::store::ParameterStore;

verus! {

/// Little-endian byte image of one 64-bit value: the wire form of one
/// IEEE-754 double of the persisted state blob.
pub open spec fn u64_le(v: u64) -> Seq<u8> {
    seq![
        (v & 0xff) as u8,
        ((v >> 8) & 0xff) as u8,
        ((v >> 16) & 0xff) as u8,
        ((v >> 24) & 0xff) as u8,
        ((v >> 32) & 0xff) as u8,
        ((v >> 40) & 0xff) as u8,
        ((v >> 48) & 0xff) as u8,
        ((v >> 56) & 0xff) as u8,
    ]
}

/// The 64-bit value read back from eight little-endian bytes.
pub open spec fn u64_from_le(s: Seq<u8>) -> u64
    recommends
        s.len() == 8,
{
    ((s[0] as u64)
        | ((s[1] as u64) << 8)
        | ((s[2] as u64) << 16)
        | ((s[3] as u64) << 24)
        | ((s[4] as u64) << 32)
        | ((s[5] as u64) << 40)
        | ((s[6] as u64) << 48)
        | ((s[7] as u64) << 56)) as u64
}

/// Encoding then decoding one value is the identity.
pub proof fn lemma_u64_le_round_trip(v: u64)
    ensures
        u64_from_le(u64_le(v)) == v,
{
    let s = u64_le(v);
    assert(s[0] == (v & 0xff) as u8);
    assert(s[1] == ((v >> 8) & 0xff) as u8);
    assert(s[2] == ((v >> 16) & 0xff) as u8);
    assert(s[3] == ((v >> 24) & 0xff) as u8);
    assert(s[4] == ((v >> 32) & 0xff) as u8);
    assert(s[5] == ((v >> 40) & 0xff) as u8);
    assert(s[6] == ((v >> 48) & 0xff) as u8);
    assert(s[7] == ((v >> 56) & 0xff) as u8);
    assert(((((v & 0xff) as u8) as u64)
        | ((((v >> 8) & 0xff) as u8) as u64) << 8
        | ((((v >> 16) & 0xff) as u8) as u64) << 16
        | ((((v >> 24) & 0xff) as u8) as u64) << 24
        | ((((v >> 32) & 0xff) as u8) as u64) << 32
        | ((((v >> 40) & 0xff) as u8) as u64) << 40
        | ((((v >> 48) & 0xff) as u8) as u64) << 48
        | ((((v >> 56) & 0xff) as u8) as u64) << 56) == v) by (bit_vector);
}

fn push_u64_le(out: &mut Vec<u8>, v: u64)
    ensures
        final(out)@ == old(out)@ + u64_le(v),
{
    let b0: u64 = v & 0xff;
    let b1: u64 = (v >> 8) & 0xff;
    let b2: u64 = (v >> 16) & 0xff;
    let b3: u64 = (v >> 24) & 0xff;
    let b4: u64 = (v >> 32) & 0xff;
    let b5: u64 = (v >> 40) & 0xff;
    let b6: u64 = (v >> 48) & 0xff;
    let b7: u64 = (v >> 56) & 0xff;
    assert(b0 < 256 && b1 < 256 && b2 < 256 && b3 < 256 && b4 < 256 && b5 < 256 && b6 < 256
        && b7 < 256) by (bit_vector)
        requires
            b0 == v & 0xff,
            b1 == (v >> 8) & 0xff,
            b2 == (v >> 16) & 0xff,
            b3 == (v >> 24) & 0xff,
            b4 == (v >> 32) & 0xff,
            b5 == (v >> 40) & 0xff,
            b6 == (v >> 48) & 0xff,
            b7 == (v >> 56) & 0xff,
    ;
    out.push(b0 as u8);
    out.push(b1 as u8);
    out.push(b2 as u8);
    out.push(b3 as u8);
    out.push(b4 as u8);
    out.push(b5 as u8);
    out.push(b6 as u8);
    out.push(b7 as u8);
    proof {
        assert(final(out)@ =~= old(out)@ + u64_le(v));
    }
}

/// Reads one 64-bit value from eight little-endian bytes at `off`.
pub fn read_u64_le(bytes: &[u8], off: usize) -> (r: u64)
    requires
        off + 8 <= bytes@.len(),
    ensures
        r == u64_from_le(bytes@.subrange(off as int, off as int + 8)),
{
    let r: u64 = (bytes[off] as u64)
        | ((bytes[off + 1] as u64) << 8)
        | ((bytes[off + 2] as u64) << 16)
        | ((bytes[off + 3] as u64) << 24)
        | ((bytes[off + 4] as u64) << 32)
        | ((bytes[off + 5] as u64) << 40)
        | ((bytes[off + 6] as u64) << 48)
        | ((bytes[off + 7] as u64) << 56);
    proof {
        let s = bytes@.subrange(off as int, off as int + 8);
        assert(s[0] == bytes@[off as int]);
        assert(s[1] == bytes@[off as int + 1]);
        assert(s[2] == bytes@[off as int + 2]);
        assert(s[3] == bytes@[off as int + 3]);
        assert(s[4] == bytes@[off as int + 4]);
        assert(s[5] == bytes@[off as int + 5]);
        assert(s[6] == bytes@[off as int + 6]);
        assert(s[7] == bytes@[off as int + 7]);
    }
    r
}

/// Persists the full parameter set: one 8-byte little-endian double image
/// per parameter, in registry canonical order, with no header, length
/// prefix or id tags — position alone correlates a value to its identity.
pub fn write_state(store: &ParameterStore, reg: &ParameterRegistry) -> (r: Vec<u8>)
    requires
        store.wf(),
        reg.wf(),
        forall|i: int| 0 <= i < reg@.len() ==> store@.dom().contains(#[trigger] reg@[i].id),
    ensures
        r@.len() == 8 * reg@.len(),
        forall|i: int|
            0 <= i < reg@.len()
                ==> r@.subrange(8 * i, 8 * i + 8) == u64_le(store@[#[trigger] reg@[i].id]),
{
    let n = reg.count();
    let mut out: Vec<u8> = Vec::new();
    let mut i: usize = 0;
    while i < n
        invariant
            store.wf(),
            reg.wf(),
            n == reg@.len(),
            i <= n,
            forall|p: int| 0 <= p < n ==> store@.dom().contains(#[trigger] reg@[p].id),
            out@.len() == 8 * i,
            forall|p: int|
                0 <= p < i
                    ==> out@.subrange(8 * p, 8 * p + 8) == u64_le(store@[#[trigger] reg@[p].id]),
        decreases n - i,
    {
        let id = reg.id_at(i);
        let v: u64 = match store.get(id) {
            Some(v) => v,
            None => {
                proof {
                    assert(false);
                }
                0
            },
        };
        let ghost pre = out@;
        push_u64_le(&mut out, v);
        proof {
            assert forall|p: int| 0 <= p < i + 1 implies
                out@.subrange(8 * p, 8 * p + 8) == u64_le(store@[#[trigger] reg@[p].id]) by {
                if p < i {
                    assert(out@.subrange(8 * p, 8 * p + 8) =~= pre.subrange(8 * p, 8 * p + 8));
                } else {
                    assert(out@.subrange(8 * p, 8 * p + 8) =~= u64_le(store@[reg@[p].id]));
                }
            }
        }
        i += 1;
    }
    out
}

/// Restores a fresh store from a persisted blob over `reg`: one value per
/// parameter, consumed in canonical order.  A short stream populates only
/// the ids whose eight bytes are fully present and leaves the rest unset;
/// the facade treats that shortage as fatal.
pub fn read_state(bytes: &[u8], reg: &ParameterRegistry) -> (s: ParameterStore)
    requires
        reg.wf(),
    ensures
        s.wf(),
        forall|p: int|
            0 <= p < reg@.len() && 8 * p + 8 <= bytes@.len()
                ==> s@.dom().contains(#[trigger] reg@[p].id)
                    && s@[reg@[p].id] == u64_from_le(bytes@.subrange(8 * p, 8 * p + 8)),
        forall|id: u32| #[trigger] s@.dom().contains(id)
            ==> exists|p: int|
                0 <= p < reg@.len() && 8 * p + 8 <= bytes@.len() && reg@[p].id == id,
{
    let n = reg.count();
    let mut s = ParameterStore::new();
    let mut p: usize = 0;
    let mut off: usize = 0;
    while p < n && bytes.len() - off >= 8
        invariant
            reg.wf(),
            s.wf(),
            n == reg@.len(),
            p <= n,
            off == 8 * p,
            off <= bytes@.len() || p == 0,
            forall|q: int|
                0 <= q < p
                    ==> 8 * q + 8 <= bytes@.len()
                        && s@.dom().contains(#[trigger] reg@[q].id)
                        && s@[reg@[q].id] == u64_from_le(bytes@.subrange(8 * q, 8 * q + 8)),
            forall|id: u32| #[trigger] s@.dom().contains(id)
                ==> exists|q: int| 0 <= q < p && reg@[q].id == id,
        decreases n - p,
    {
        let id = reg.id_at(p);
        proof {
            if s@.dom().contains(id) {
                let q = choose|q: int| 0 <= q < p && reg@[q].id == id;
                assert(reg@[q].id == reg@[p as int].id && q != p);
                assert(false);
            }
        }
        let v = read_u64_le(bytes, off);
        s.populate(id, v);
        p += 1;
        off += 8;
    }
    proof {
        assert forall|q: int| 0 <= q < reg@.len() && 8 * q + 8 <= bytes@.len() implies
            s@.dom().contains(#[trigger] reg@[q].id)
                && s@[reg@[q].id] == u64_from_le(bytes@.subrange(8 * q, 8 * q + 8)) by {
            assert(q < p);
        }
    }
    s
}

/// Writing the store over a registry and reading the blob back over the
/// same registry restores every parameter's value exactly.
///
/// The hypotheses are precisely what `write_state` ensures of the blob and
/// `read_state` ensures of the restored table when the blob is complete.
pub proof fn lemma_state_round_trip(
    regs: Seq<ParameterDefinition>,
    original: Map<u32, u64>,
    blob: Seq<u8>,
    restored: Map<u32, u64>,
)
    requires
        blob.len() == 8 * regs.len(),
        forall|i: int|
            0 <= i < regs.len()
                ==> blob.subrange(8 * i, 8 * i + 8) == u64_le(original[#[trigger] regs[i].id]),
        forall|i: int|
            0 <= i < regs.len()
                ==> restored.dom().contains(#[trigger] regs[i].id)
                    && restored[regs[i].id] == u64_from_le(blob.subrange(8 * i, 8 * i + 8)),
    ensures
        forall|i: int|
            0 <= i < regs.len() ==> restored[#[trigger] regs[i].id] == original[regs[i].id],
{
    assert forall|i: int| 0 <= i < regs.len() implies
        restored[#[trigger] regs[i].id] == original[regs[i].id] by {
        lemma_u64_le_round_trip(original[regs[i].id]);
    }
}

/// Order sensitivity of the unframed format: a blob written over one
/// registry and read over a second whose canonical order places a
/// different id at some position hands that position's value to the wrong
/// parameter.  Whenever the two parameters' original values differ, at
/// least one id is restored to a value that is not its own.
///
/// The hypotheses on `blob` and `restored` are what `write_state` over
/// `regs_a` and `read_state` over `regs_b` ensure for a complete blob.
pub proof fn lemma_state_order_fragility(
    regs_a: Seq<ParameterDefinition>,
    regs_b: Seq<ParameterDefinition>,
    original: Map<u32, u64>,
    blob: Seq<u8>,
    restored: Map<u32, u64>,
    i: int,
    j: int,
)
    requires
        regs_a.len() == regs_b.len(),
        0 <= i < regs_a.len(),
        0 <= j < regs_a.len(),
        regs_b[i].id == regs_a[j].id,
        original[regs_a[i].id] != original[regs_a[j].id],
        blob.len() == 8 * regs_a.len(),
        forall|p: int|
            0 <= p < regs_a.len()
                ==> blob.subrange(8 * p, 8 * p + 8) == u64_le(original[#[trigger] regs_a[p].id]),
        forall|p: int|
            0 <= p < regs_b.len()
                ==> restored[#[trigger] regs_b[p].id]
                    == u64_from_le(blob.subrange(8 * p, 8 * p + 8)),
    ensures
        restored[regs_a[j].id] != original[regs_a[j].id],
{
    lemma_u64_le_round_trip(original[regs_a[i].id]);
    assert(restored[regs_b[i].id] == original[regs_a[i].id]);
}

} // verus!
