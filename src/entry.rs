//! The pointer/length calling convention: the caller places PNG bytes in guest memory and
//! names a slot of two 32-bit words, which receives the address and the length of the
//! grayscale result.
use crate::codec::{decodes, starts_with_png_signature};
use crate::memory::{allocate, le_bytes, span, GuestMemory, MEMORY_LIMIT};
use crate::pipeline::{gray_png, transform, TransformError};
use vstd::prelude::*;

verus! {

/// `after` is `before` once `bytes` were copied into a fresh allocation at the old top of the
/// memory, and that allocation's address and length were written, little-endian, to the
/// eight bytes at `slot`. Nothing else changed.
pub open spec fn delivered(before: GuestMemory, slot: int, bytes: Seq<u8>, after: GuestMemory) -> bool {
    let addr = before.top();
    &&& after.live() == before.live().insert(addr, bytes.len() as int)
    &&& after.top() == addr + span(bytes.len() as int)
    &&& after.contents().subrange(addr, addr + bytes.len()) == bytes
    &&& after.contents().subrange(slot, slot + 8) == le_bytes(addr as u32) + le_bytes(
        bytes.len() as u32,
    )
    &&& forall|i: int|
        0 <= i < addr && !(slot <= i < slot + 8) ==> #[trigger] after.contents()[i]
            == before.contents()[i]
}

/// Hands a transform result over to the caller. On `Ok(bytes)` the bytes are copied into a
/// fresh allocation, its address and length go to the slot at `out_ptr`, and the length is
/// returned. On `Err`, or where the memory cannot hold the bytes, 0 is returned and the
/// memory is left as it was.
pub fn store_result(mem: &mut GuestMemory, result: Result<Vec<u8>, TransformError>, out_ptr: u32) -> (len: u32)
    requires
        old(mem).wf(),
        out_ptr as int + 8 <= old(mem).top(),
    ensures
        final(mem).wf(),
        match result {
            Err(_) => len == 0 && *final(mem) == *old(mem),
            Ok(v) => if old(mem).top() + span(v@.len() as int) > MEMORY_LIMIT {
                len == 0 && *final(mem) == *old(mem)
            } else {
                len as int == v@.len() && delivered(*old(mem), out_ptr as int, v@, *final(mem))
            },
        },
{
    let bytes = match result {
        Ok(v) => v,
        Err(_) => return 0,
    };
    if bytes.len() >= MEMORY_LIMIT as usize {
        return 0;
    }
    let len = bytes.len() as u32;
    let ghost m0 = *mem;
    let addr = allocate(mem, len);
    if addr == 0 {
        return 0;
    }
    let ghost m1 = *mem;
    mem.write(addr, bytes.as_slice());
    let ghost m2 = *mem;
    mem.write_u32(out_ptr, addr);
    let ghost m3 = *mem;
    mem.write_u32(out_ptr + 4, len);
    proof {
        let a = addr as int;
        let n = len as int;
        let s = out_ptr as int;
        assert(m2.contents().subrange(a, a + n) =~= bytes@);
        assert(mem.contents().subrange(a, a + n) =~= m2.contents().subrange(a, a + n));
        assert(mem.contents().subrange(s, s + 8) =~= le_bytes(addr) + le_bytes(len));
        assert forall|i: int|
            0 <= i < a && !(s <= i < s + 8) implies #[trigger] mem.contents()[i]
                == m0.contents()[i] by {
            assert(m1.contents()[i] == m0.contents()[i]);
            assert(m2.contents()[i] == m1.contents()[i]);
            assert(m3.contents()[i] == m2.contents()[i]);
        }
    }
    len
}

/// Turns the PNG bytes at `input_ptr .. input_ptr + input_len` into grayscale PNG bytes (the
/// encoding of the input's luma raster) in a fresh allocation, writes its address and length to the slot at `out_ptr`, and returns the
/// length. Returns 0, with the memory unchanged, where the input is no PNG that decodes, the
/// re-encoding fails, or the memory cannot hold the result.
pub fn grayscale(mem: &mut GuestMemory, input_ptr: u32, input_len: u32, out_ptr: u32) -> (len: u32)
    requires
        old(mem).wf(),
        input_ptr as int + input_len as int <= old(mem).top(),
        out_ptr as int + 8 <= old(mem).top(),
    ensures
        final(mem).wf(),
        ({
            let input = old(mem).contents().subrange(
                input_ptr as int,
                input_ptr as int + input_len as int,
            );
            !starts_with_png_signature(input) || !decodes(input) ==> len == 0
        }),
        len == 0 ==> *final(mem) == *old(mem),
        ({
            let input = old(mem).contents().subrange(
                input_ptr as int,
                input_ptr as int + input_len as int,
            );
            starts_with_png_signature(input) && decodes(input) && gray_png(input) is Some
                && starts_with_png_signature(gray_png(input)->0) && old(mem).top() + span(
                gray_png(input)->0.len() as int,
            ) <= MEMORY_LIMIT ==> len as int == gray_png(input)->0.len() && delivered(
                *old(mem),
                out_ptr as int,
                gray_png(input)->0,
                *final(mem),
            )
        }),
        ({
            let input = old(mem).contents().subrange(
                input_ptr as int,
                input_ptr as int + input_len as int,
            );
            len != 0 ==> len as int == gray_png(input)->0.len() && starts_with_png_signature(
                gray_png(input)->0,
            ) && delivered(*old(mem), out_ptr as int, gray_png(input)->0, *final(mem))
        }),
{
    let input = mem.read(input_ptr, input_len);
    let result = transform(input.as_slice());
    store_result(mem, result, out_ptr)
}

} // verus!
