use crate::text::{dec_text, hex_text, push_dec, push_hex};
use crate::types::GlueError;
use vstd::prelude::*;

verus! {

/// The size of a WebAssembly page in bytes.
pub const PAGE_SIZE: u64 = 65536;

/// `mem` with `data` written over it from byte `off` on.
pub open spec fn write_at(mem: Seq<u8>, off: int, data: Seq<u8>) -> Seq<u8> {
    mem.subrange(0, off) + data + mem.subrange(off + data.len(), mem.len() as int)
}

/// The length of `mem` without its trailing zero bytes.
pub open spec fn trimmed_len(mem: Seq<u8>) -> nat
    decreases mem.len(),
{
    if mem.len() == 0 {
        0
    } else if mem.last() != 0 {
        mem.len()
    } else {
        trimmed_len(mem.drop_last())
    }
}

/// Every byte of `mem` from `n` on is zero.
pub open spec fn zero_from(mem: Seq<u8>, n: int) -> bool {
    forall|i: int| n <= i < mem.len() ==> mem[i] == 0
}

/// `n` zero bytes.
pub open spec fn zeros(n: nat) -> Seq<u8> {
    Seq::new(n, |i: int| 0u8)
}

/// A fresh image of `pages` pages: all zero bytes, or `MemoryTooLarge` where
/// its size cannot be held.
pub fn new_image(pages: u64) -> (r: Result<Vec<u8>, GlueError>)
    ensures
        pages * PAGE_SIZE <= usize::MAX ==> (r matches Ok(m) && m@ == zeros(
            (pages * PAGE_SIZE) as nat,
        )),
        pages * PAGE_SIZE > usize::MAX ==> r == Err::<Vec<u8>, GlueError>(
            GlueError::MemoryTooLarge,
        ),
{
    if pages > (usize::MAX as u64) / PAGE_SIZE {
        assert(pages * PAGE_SIZE > usize::MAX) by (nonlinear_arith)
            requires
                pages > (usize::MAX as u64) / PAGE_SIZE,
                PAGE_SIZE == 65536,
        ;
        return Err(GlueError::MemoryTooLarge);
    }
    assert(pages * PAGE_SIZE <= usize::MAX) by (nonlinear_arith)
        requires
            pages <= (usize::MAX as u64) / PAGE_SIZE,
            PAGE_SIZE == 65536,
    ;
    let n: usize = (pages * PAGE_SIZE) as usize;
    let m: Vec<u8> = vec![0u8; n];
    assert(m@ == zeros(n as nat));
    Ok(m)
}

/// Copies `data` into `mem` at byte `offset`; a segment reaching past the end
/// leaves `mem` as it was and fails with `OutOfBounds`.
pub fn apply_chunk(mem: &mut Vec<u8>, offset: u64, data: &[u8]) -> (r: Result<(), GlueError>)
    ensures
        offset + data@.len() <= old(mem)@.len() ==> r == Ok::<(), GlueError>(()) && final(mem)@
            == write_at(old(mem)@, offset as int, data@),
        offset + data@.len() > old(mem)@.len() ==> r == Err::<(), GlueError>(
            GlueError::OutOfBounds,
        ) && final(mem)@ == old(mem)@,
{
    if offset as u128 + data.len() as u128 > mem.len() as u128 {
        return Err(GlueError::OutOfBounds);
    }
    let start: usize = offset as usize;
    let mlen: usize = mem.len();
    let mut i: usize = 0;
    while i < data.len()
        invariant
            start + data@.len() <= mem@.len(),
            i <= data@.len(),
            mem@.len() == old(mem)@.len(),
            mem@.len() == mlen,
            forall|k: int|
                0 <= k < mem@.len() ==> #[trigger] mem@[k] == if start <= k < start + i {
                    data@[k - start]
                } else {
                    old(mem)@[k]
                },
        decreases data@.len() - i,
    {
        let k: usize = start + i;
        mem[k] = data[i];
        i = i + 1;
    }
    assert(mem@ == write_at(old(mem)@, offset as int, data@));
    Ok(())
}

/// Writing two adjacent pieces of one segment gives the same image in either
/// order, and the same as writing them as one.
pub proof fn lemma_chunks_commute(mem: Seq<u8>, off: int, a: Seq<u8>, b: Seq<u8>)
    requires
        0 <= off,
        off + a.len() + b.len() <= mem.len(),
    ensures
        write_at(write_at(mem, off, a), off + a.len(), b) == write_at(
            write_at(mem, off + a.len(), b),
            off,
            a,
        ),
        write_at(write_at(mem, off, a), off + a.len(), b) == write_at(mem, off, a + b),
{
    assert(write_at(write_at(mem, off, a), off + a.len(), b) =~= write_at(mem, off, a + b));
    assert(write_at(write_at(mem, off + a.len(), b), off, a) =~= write_at(mem, off, a + b));
}

/// Writing a piece that fits keeps the image's length, so an image keeps the
/// size it was created with.
pub proof fn lemma_write_keeps_len(mem: Seq<u8>, off: int, data: Seq<u8>)
    requires
        0 <= off,
        off + data.len() <= mem.len(),
    ensures
        write_at(mem, off, data).len() == mem.len(),
{
}

/// The trimmed length drops exactly the trailing zero bytes.
pub proof fn lemma_trimmed_len(mem: Seq<u8>)
    ensures
        trimmed_len(mem) <= mem.len(),
        zero_from(mem, trimmed_len(mem) as int),
        trimmed_len(mem) == 0 || mem[trimmed_len(mem) - 1] != 0,
    decreases mem.len(),
{
    if mem.len() > 0 && mem.last() == 0 {
        let d = mem.drop_last();
        lemma_trimmed_len(d);
        assert forall|i: int| trimmed_len(mem) <= i < mem.len() implies mem[i] == 0 by {
            if i < d.len() {
                assert(mem[i] == d[i]);
            }
        }
    }
}

/// The bytes up to the trimmed length, zero-extended to the full length, are
/// the image itself.
pub proof fn lemma_trimmed_zero_extends(mem: Seq<u8>)
    ensures
        mem.subrange(0, trimmed_len(mem) as int) + zeros((mem.len() - trimmed_len(mem)) as nat)
            == mem,
{
    lemma_trimmed_len(mem);
    assert(mem.subrange(0, trimmed_len(mem) as int) + zeros((mem.len() - trimmed_len(mem)) as nat)
        =~= mem);
}

/// The length of `mem` without its trailing zero bytes.
pub fn trim_len(mem: &Vec<u8>) -> (n: usize)
    ensures
        n == trimmed_len(mem@),
{
    let mut n: usize = mem.len();
    assert(mem@.subrange(0, n as int) == mem@);
    while n > 0 && mem[n - 1] == 0
        invariant
            n <= mem@.len(),
            trimmed_len(mem@) == trimmed_len(mem@.subrange(0, n as int)),
        decreases n,
    {
        assert(mem@.subrange(0, n as int).drop_last() == mem@.subrange(0, n - 1));
        n = n - 1;
    }
    if n > 0 {
        assert(mem@.subrange(0, n as int).last() == mem@[n - 1]);
    }
    n
}

/// The text of byte `j` of an array literal: a separating comma after the
/// first, a line break before every 32nd, then the byte in hexadecimal.
pub open spec fn byte_item_text(j: nat, b: u8) -> Seq<char> {
    (if j > 0 { ", "@ } else { Seq::empty() }) + (if j % 32 == 0 { "\n  "@ } else { Seq::empty() })
        + "0x"@ + hex_text(b as nat)
}

/// The elements of an array literal holding `bytes`.
pub open spec fn literal_text(bytes: Seq<u8>) -> Seq<char>
    decreases bytes.len(),
{
    if bytes.len() == 0 {
        Seq::empty()
    } else {
        literal_text(bytes.drop_last()) + byte_item_text((bytes.len() - 1) as nat, bytes.last())
    }
}

/// The declarations of memory number `i`: its full length, the array with its
/// contents up to the last non-zero byte, a pointer to it and a macro that
/// marks it as defined.
pub open spec fn memory_decl_text(i: nat, mem: Seq<u8>) -> Seq<char> {
    memory_head_text(i, mem.len()) + literal_text(mem.subrange(0, trimmed_len(mem) as int))
        + memory_tail_text(i)
}

/// The length constant of memory `i` and the opening of its array.
pub open spec fn memory_head_text(i: nat, len: nat) -> Seq<char> {
    "uint32_t memory"@ + dec_text(i) + "_length = "@ + dec_text(len) + ";\n"@ + "uint8_t memory"@
        + dec_text(i) + "["@ + dec_text(len) + "] = {"@
}

/// The closing of the array of memory `i`, its pointer and its macro.
pub open spec fn memory_tail_text(i: nat) -> Seq<char> {
    "};\n"@ + "uint8_t* memoryOffset"@ + dec_text(i) + " = memory"@ + dec_text(i) + ";\n"@
        + "#define MEMORY"@ + dec_text(i) + "_DEFINED 1\n"@
}

fn push_memory_head(out: &mut String, i: u64, len: u64)
    ensures
        final(out)@ == old(out)@ + memory_head_text(i as nat, len as nat),
{
    let ghost start = out@;
    out.append("uint32_t memory");
    push_dec(out, i);
    out.append("_length = ");
    push_dec(out, len);
    out.append(";\n");
    out.append("uint8_t memory");
    push_dec(out, i);
    out.append("[");
    push_dec(out, len);
    out.append("] = {");
    assert(out@ =~= start + memory_head_text(i as nat, len as nat));
}

fn push_memory_tail(out: &mut String, i: u64)
    ensures
        final(out)@ == old(out)@ + memory_tail_text(i as nat),
{
    let ghost start = out@;
    out.append("};\n");
    out.append("uint8_t* memoryOffset");
    push_dec(out, i);
    out.append(" = memory");
    push_dec(out, i);
    out.append(";\n");
    out.append("#define MEMORY");
    push_dec(out, i);
    out.append("_DEFINED 1\n");
    assert(out@ =~= start + memory_tail_text(i as nat));
}

/// Appends the array elements of the first `n` bytes of `mem`.
fn push_literal(out: &mut String, mem: &Vec<u8>, n: usize)
    requires
        n <= mem@.len(),
    ensures
        final(out)@ == old(out)@ + literal_text(mem@.subrange(0, n as int)),
{
    let ghost head = out@;
    let mut j: usize = 0;
    assert(mem@.subrange(0, 0) =~= Seq::<u8>::empty());
    assert(head + literal_text(Seq::<u8>::empty()) =~= head);
    while j < n
        invariant
            n <= mem@.len(),
            j <= n,
            out@ == head + literal_text(mem@.subrange(0, j as int)),
        decreases n - j,
    {
        let ghost before = out@;
        if j > 0 {
            out.append(", ");
        }
        if j % 32 == 0 {
            out.append("\n  ");
        }
        out.append("0x");
        push_hex(out, mem[j] as u64);
        proof {
            let s = mem@.subrange(0, j + 1);
            assert(s.drop_last() =~= mem@.subrange(0, j as int));
            assert(s.last() == mem@[j as int]);
            assert(out@ =~= before + byte_item_text(j as nat, mem@[j as int]));
        }
        j = j + 1;
    }
}

/// Appends the declarations of memory number `i` to `out`.
pub fn push_memory_decl(out: &mut String, i: u64, mem: &Vec<u8>)
    ensures
        final(out)@ == old(out)@ + memory_decl_text(i as nat, mem@),
{
    let ghost start = out@;
    push_memory_head(out, i, mem.len() as u64);
    let n = trim_len(mem);
    proof {
        lemma_trimmed_len(mem@);
    }
    push_literal(out, mem, n);
    push_memory_tail(out, i);
    assert(out@ =~= start + memory_decl_text(i as nat, mem@));
}

} // verus!
