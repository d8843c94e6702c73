//! Images placed in guest memory before the VM starts, and the Linux bzImage
//! boot protocol that splits a kernel into such images.
use vstd::prelude::*;
use vstd::bytes::{spec_u16_to_le_bytes, spec_u32_to_le_bytes, u16_to_le_bytes, u32_to_le_bytes};
use crate::bytes::{put_bytes, zeros};
use crate::memory_region::splice;

verus! {

/// The bytes `data`, to be copied to guest physical address `offset`.
pub struct Binary {
    pub data: Vec<u8>,
    pub offset: u64,
}

/// Offset of the setup header in a bzImage and in the zero page.
pub const SETUP_HEADER_OFFSET: usize = 0x1F1;

/// Bytes of the setup header copied into the zero page.
pub const SETUP_HEADER_LEN: usize = 0x7F;

/// Guest address of the real-mode setup code.
pub const SETUP_ADDR: u64 = 0x10000;

/// Guest address of the protected-mode kernel.
pub const KERNEL_ADDR: u64 = 0x100000;

/// Guest address of the zero page (`struct boot_params`).
pub const BOOT_PARAMS_ADDR: u64 = 0x20000;

/// Guest address of the kernel command line.
pub const CMDLINE_ADDR: u64 = 0x21000;

/// Guest address the CPU starts executing at.
pub const RESET_VECTOR_ADDR: u64 = 0xFFF0;

/// Guest address of the firmware's entry point.
pub const FIRMWARE_ENTRY: u16 = 0x7E00;

/// A real-mode far jump to `segment:offset`: opcode 0xEA, then the offset and
/// the segment, each little-endian.
pub open spec fn far_jump(segment: u16, offset: u16) -> Seq<u8> {
    seq![0xEAu8] + spec_u16_to_le_bytes(offset) + spec_u16_to_le_bytes(segment)
}

/// "console=ttyS0 earlyprintk=serial", NUL-terminated.
pub open spec fn kernel_cmdline() -> Seq<u8> {
    seq![
        0x63, 0x6F, 0x6E, 0x73, 0x6F, 0x6C, 0x65, 0x3D, 0x74, 0x74, 0x79, 0x53, 0x30, 0x20, 0x65, 0x61,
        0x72, 0x6C, 0x79, 0x70, 0x72, 0x69, 0x6E, 0x74, 0x6B, 0x3D, 0x73, 0x65, 0x72, 0x69, 0x61, 0x6C,
        0x00
    ]
}

fn kernel_cmdline_bytes() -> (r: Vec<u8>)
    ensures
        r@ == kernel_cmdline(),
{
    let r = vec![
        0x63u8, 0x6F, 0x6E, 0x73, 0x6F, 0x6C, 0x65, 0x3D, 0x74, 0x74, 0x79, 0x53, 0x30, 0x20, 0x65,
        0x61, 0x72, 0x6C, 0x79, 0x70, 0x72, 0x69, 0x6E, 0x74, 0x6B, 0x3D, 0x73, 0x65, 0x72, 0x69, 0x61,
        0x6C, 0x00,
    ];
    assert(r@ =~= kernel_cmdline());
    r
}

/// The zero page built from a bzImage: a 4 KiB page, zero but for the setup
/// header copied from the image and the fields the boot loader must write:
/// loader type 0xFF (unknown loader), load flags with LOADED_HIGH and
/// CAN_USE_HEAP set, heap end 0x7FF0, video mode 0xFFFF (normal), command line
/// at `CMDLINE_ADDR` and its length without the NUL.
pub open spec fn boot_params(bzimage: Seq<u8>) -> Seq<u8> {
    let hdr = bzimage.subrange(SETUP_HEADER_OFFSET as int, (SETUP_HEADER_OFFSET + SETUP_HEADER_LEN) as int);
    let bp = splice(zeros(4096), SETUP_HEADER_OFFSET as int, hdr);
    let bp = bp.update(0x210, 0xFF);
    let bp = bp.update(0x211, bp[0x211] | 0x01u8 | 0x80u8);
    let bp = splice(bp, 0x224, spec_u16_to_le_bytes(0x7FF0));
    let bp = splice(bp, 0x1FA, spec_u16_to_le_bytes(0xFFFF));
    let bp = splice(bp, 0x228, spec_u32_to_le_bytes(CMDLINE_ADDR as u32));
    splice(bp, 0x238, spec_u32_to_le_bytes((kernel_cmdline().len() - 1) as u32))
}

/// The number of 512-byte setup sectors a bzImage declares; 0 means 4.
pub open spec fn setup_sects(bzimage: Seq<u8>) -> int {
    if bzimage[SETUP_HEADER_OFFSET as int] == 0 {
        4
    } else {
        bzimage[SETUP_HEADER_OFFSET as int] as int
    }
}

/// Bytes of the boot sector and the setup code together.
pub open spec fn setup_size(bzimage: Seq<u8>) -> int {
    (setup_sects(bzimage) + 1) * 512
}

impl Binary {
    pub fn new(data: Vec<u8>, offset: u64) -> (r: Self)
        ensures
            r.data@ == data@,
            r.offset == offset,
    {
        Self { data, offset }
    }

    /// The reset vector: a 5-byte far jump to the firmware entry at
    /// `0000:FIRMWARE_ENTRY`, placed where the CPU starts.
    pub fn reset_vector() -> (r: Self)
        ensures
            r.data@ == far_jump(0, FIRMWARE_ENTRY),
            r.data@.len() == 5,
            r.offset == RESET_VECTOR_ADDR,
    {
        proof {
            vstd::bytes::lemma_auto_spec_u16_to_from_le_bytes();
        }
        let mut data: Vec<u8> = vec![0xEA];
        data.extend_from_slice(u16_to_le_bytes(FIRMWARE_ENTRY).as_slice());
        data.extend_from_slice(u16_to_le_bytes(0).as_slice());
        assert(data@ =~= far_jump(0, FIRMWARE_ENTRY));
        Self { data, offset: RESET_VECTOR_ADDR }
    }

    fn build_boot_params(bzimage: &[u8]) -> (r: Vec<u8>)
        requires
            bzimage@.len() >= SETUP_HEADER_OFFSET + SETUP_HEADER_LEN,
        ensures
            r@ == boot_params(bzimage@),
    {
        // struct boot_params / "zero page" - see Documentation/x86/boot.rst
        let mut bp = vec![0u8; 4096];
        assert(bp@ =~= zeros(4096));
        proof {
            vstd::bytes::lemma_auto_spec_u16_to_from_le_bytes();
            vstd::bytes::lemma_auto_spec_u32_to_from_le_bytes();
        }
        // Copy the setup_header verbatim from the bzImage: it starts at 0x1F1
        // and 0x7F bytes cover it through kernel_info_offset (protocol 2.15).
        let hdr_src = SETUP_HEADER_OFFSET;
        let hdr_len = SETUP_HEADER_LEN;
        put_bytes(&mut bp, hdr_src, &bzimage[hdr_src..hdr_src + hdr_len]);
        // type_of_loader (0x210): 0xFF = unknown/custom boot loader.
        bp.set(0x210, 0xFF);
        // loadflags (0x211): LOADED_HIGH (bit 0) and CAN_USE_HEAP (bit 7).
        let loadflags = bp[0x211];
        bp.set(0x211, loadflags | 0x01 | 0x80);
        // heap_end_ptr (0x224): ~28 KB of heap above the setup code at 0x10000.
        let heap_end: u16 = 0x7FF0;
        put_bytes(&mut bp, 0x224, u16_to_le_bytes(heap_end).as_slice());
        // vid_mode (0x1FA): 0xFFFF = "normal".
        let vid: u16 = 0xFFFF;
        put_bytes(&mut bp, 0x1FA, u16_to_le_bytes(vid).as_slice());
        // cmd_line_ptr (0x228): 32-bit linear address of the command line.
        let cmdline_addr: u32 = 0x21000;
        put_bytes(&mut bp, 0x228, u32_to_le_bytes(cmdline_addr).as_slice());
        // cmdline_size (0x238): length of the command line without the NUL.
        let cmdline = kernel_cmdline_bytes();
        let size = (cmdline.len() - 1) as u32;
        put_bytes(&mut bp, 0x238, u32_to_le_bytes(size).as_slice());
        bp
    }

    /// Splits a bzImage into the images the boot protocol places: the setup
    /// sectors at `SETUP_ADDR`, the protected-mode kernel at `KERNEL_ADDR`,
    /// the zero page at `BOOT_PARAMS_ADDR` and the command line at `CMDLINE_ADDR`.
    pub fn load_bz_image(data: Vec<u8>) -> (r: Vec<Self>)
        requires
            data@.len() >= SETUP_HEADER_OFFSET + SETUP_HEADER_LEN,
            data@.len() >= setup_size(data@),
        ensures
            r@.len() == 4,
            r@[0].data@ == data@.subrange(0, setup_size(data@)),
            r@[0].offset == SETUP_ADDR,
            r@[1].data@ == data@.subrange(setup_size(data@), data@.len() as int),
            r@[1].offset == KERNEL_ADDR,
            r@[2].data@ == boot_params(data@),
            r@[2].offset == BOOT_PARAMS_ADDR,
            r@[3].data@ == kernel_cmdline(),
            r@[3].offset == CMDLINE_ADDR,
    {
        let setup_sects: usize = if data[0x1F1] == 0 {
            4
        } else {
            data[0x1F1] as usize
        };
        let setup_size = (setup_sects + 1) * 512;
        let kernel_offset = setup_size;
        let boot_params = Self::build_boot_params(data.as_slice());
        let setup = Self { data: vstd::slice::slice_to_vec(&data[0..setup_size]), offset: SETUP_ADDR };
        let kernel = Self { data: vstd::slice::slice_to_vec(&data[kernel_offset..data.len()]), offset: KERNEL_ADDR };
        let params = Self { data: boot_params, offset: BOOT_PARAMS_ADDR };
        let cmdline = Self { data: kernel_cmdline_bytes(), offset: CMDLINE_ADDR };
        let mut images: Vec<Self> = Vec::new();
        images.push(setup);
        images.push(kernel);
        images.push(params);
        images.push(cmdline);
        images
    }
}

/// The setup sectors and the kernel that `load_bz_image` splits off make up the
/// whole bzImage again.
pub proof fn lemma_bz_image_split(data: Seq<u8>)
    requires
        data.len() >= SETUP_HEADER_OFFSET + SETUP_HEADER_LEN,
        data.len() >= setup_size(data),
    ensures
        data.subrange(0, setup_size(data)) + data.subrange(setup_size(data), data.len() as int) == data,
{
    assert(data.subrange(0, setup_size(data)) + data.subrange(setup_size(data), data.len() as int) =~= data);
}

proof fn lemma_splice_at(s: Seq<u8>, off: int, d: Seq<u8>, k: int)
    requires
        0 <= off,
        off + d.len() <= s.len(),
        0 <= k < s.len(),
    ensures
        splice(s, off, d).len() == s.len(),
        splice(s, off, d)[k] == if off <= k < off + d.len() {
            d[k - off]
        } else {
            s[k]
        },
{
}

/// The bytes of the zero page that the boot loader writes itself: video mode,
/// loader type, load flags, heap end, command-line pointer and size.
pub open spec fn loader_field(k: int) -> bool {
    ||| 0x1FA <= k < 0x1FC
    ||| 0x210 <= k < 0x212
    ||| 0x224 <= k < 0x226
    ||| 0x228 <= k < 0x22C
    ||| 0x238 <= k < 0x23C
}

/// The zero page is a 4 KiB page holding the bzImage's setup header
/// `[0x1F1, 0x270)` verbatim except for the fields the loader writes, and zero
/// everywhere else. The loader type is 0xFF (unknown loader), the load flags
/// are the image's with LOADED_HIGH (bit 0) and CAN_USE_HEAP (bit 7) set, the
/// heap ends at 0x7FF0, the video mode is 0xFFFF (normal), and the command line
/// is at 0x21000 with the length of the command-line image less its NUL.
pub proof fn lemma_boot_params_layout(img: Seq<u8>, k: int)
    requires
        img.len() >= SETUP_HEADER_OFFSET + SETUP_HEADER_LEN,
        0 <= k < 4096,
    ensures
        boot_params(img).len() == 4096,
        0x1F1 <= k < 0x270 && !loader_field(k) ==> boot_params(img)[k] == img[k],
        (k < 0x1F1 || 0x270 <= k) ==> boot_params(img)[k] == 0,
        boot_params(img)[0x210] == 0xFF,
        boot_params(img)[0x211] == img[0x211] | 0x81,
        vstd::bytes::spec_u16_from_le_bytes(boot_params(img).subrange(0x1FA, 0x1FC)) == 0xFFFF,
        vstd::bytes::spec_u16_from_le_bytes(boot_params(img).subrange(0x224, 0x226)) == 0x7FF0,
        vstd::bytes::spec_u32_from_le_bytes(boot_params(img).subrange(0x228, 0x22C)) == 0x21000,
        vstd::bytes::spec_u32_from_le_bytes(boot_params(img).subrange(0x238, 0x23C)) + 1 == kernel_cmdline().len(),
        kernel_cmdline().last() == 0,
        forall|j: int| 0 <= j < kernel_cmdline().len() - 1 ==> kernel_cmdline()[j] != 0,
{
    vstd::bytes::lemma_auto_spec_u16_to_from_le_bytes();
    vstd::bytes::lemma_auto_spec_u32_to_from_le_bytes();
    let hdr = img.subrange(0x1F1, 0x270);
    let b1 = splice(zeros(4096), 0x1F1, hdr);
    let b2 = b1.update(0x210, 0xFF);
    let b3 = b2.update(0x211, b2[0x211] | 0x01u8 | 0x80u8);
    let b4 = splice(b3, 0x224, spec_u16_to_le_bytes(0x7FF0));
    let b5 = splice(b4, 0x1FA, spec_u16_to_le_bytes(0xFFFF));
    let b6 = splice(b5, 0x228, spec_u32_to_le_bytes(CMDLINE_ADDR as u32));
    let b7 = splice(b6, 0x238, spec_u32_to_le_bytes((kernel_cmdline().len() - 1) as u32));
    assert(b7 == boot_params(img));
    lemma_splice_at(zeros(4096), 0x1F1, hdr, k);
    lemma_splice_at(zeros(4096), 0x1F1, hdr, 0x211);
    lemma_splice_at(b3, 0x224, spec_u16_to_le_bytes(0x7FF0), k);
    lemma_splice_at(b4, 0x1FA, spec_u16_to_le_bytes(0xFFFF), k);
    lemma_splice_at(b5, 0x228, spec_u32_to_le_bytes(CMDLINE_ADDR as u32), k);
    lemma_splice_at(b6, 0x238, spec_u32_to_le_bytes((kernel_cmdline().len() - 1) as u32), k);
    assert(b7.subrange(0x238, 0x23C) =~= spec_u32_to_le_bytes((kernel_cmdline().len() - 1) as u32));
    assert(b6.subrange(0x228, 0x22C) =~= spec_u32_to_le_bytes(0x21000));
    assert(b7.subrange(0x228, 0x22C) =~= b6.subrange(0x228, 0x22C));
    assert(b5.subrange(0x1FA, 0x1FC) =~= spec_u16_to_le_bytes(0xFFFF));
    assert(b7.subrange(0x1FA, 0x1FC) =~= b5.subrange(0x1FA, 0x1FC));
    assert(b4.subrange(0x224, 0x226) =~= spec_u16_to_le_bytes(0x7FF0));
    assert(b7.subrange(0x224, 0x226) =~= b4.subrange(0x224, 0x226));
    assert(b7[0x210] == b3[0x210]);
    assert(b7[0x211] == b3[0x211]);
    assert(b1[0x211] == img[0x211]);
    let f = img[0x211];
    assert(f | 0x01u8 | 0x80u8 == f | 0x81u8) by (bit_vector);
}

/// The setup image is the boot sector and the setup sectors: 512 bytes for
/// each of `1 + setup_sects`, where a `setup_sects` byte (at 0x1F1) of 0 means 4.
pub proof fn lemma_setup_size(img: Seq<u8>)
    requires
        img.len() > 0x1F1,
    ensures
        img[0x1F1] == 0 ==> setup_size(img) == 2560,
        img[0x1F1] != 0 ==> setup_size(img) == 512 * (img[0x1F1] + 1),
{
}

} // verus!
