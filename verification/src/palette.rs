//! Palettes of PNG images. A decoder numbers the entries of a palette from 0 to
//! 255, three bytes each; here it is told beforehand whether a palette fits that.
use vstd::prelude::*;

verus! {

/// The name of the chunk with which a PNG image begins, `IHDR`.
pub const HEADER: u32 = 0x4948_4452;

/// The name of the chunk that holds the palette, `PLTE`.
pub const PALETTE: u32 = 0x504c_5445;

/// The name of the chunks that hold the pixels, `IDAT`.
pub const PIXELS: u32 = 0x4944_4154;

/// The name of the chunks that hold the pixels of a later frame, `fdAT`.
pub const FRAME: u32 = 0x6664_4154;

/// The number in the four bytes at `at`, the highest byte first.
pub open spec fn word_at(file: Seq<u8>, at: int) -> int {
    ((file[at] * 256 + file[at + 1]) * 256 + file[at + 2]) * 256 + file[at + 3]
}

/// The number in the four bytes at `at`, the lowest byte first.
pub open spec fn reversed_word_at(file: Seq<u8>, at: int) -> int {
    ((file[at + 3] * 256 + file[at + 2]) * 256 + file[at + 1]) * 256 + file[at]
}

/// The number in the two bytes at `at`, the lowest byte first.
pub open spec fn reversed_half_at(file: Seq<u8>, at: int) -> int {
    file[at + 1] * 256 + file[at]
}

/// Whether a PNG image begins at `at`.
pub open spec fn image_at(file: Seq<u8>, at: int) -> bool {
    &&& 0 <= at
    &&& at + 8 <= file.len()
    &&& word_at(file, at) == 0x8950_4e47
    &&& word_at(file, at + 4) == 0x0d0a_1a0a
}

/// Whether a palette of `length` bytes is made of whole entries of three
/// bytes, 256 of them at most.
pub open spec fn palette_fits(length: int) -> bool {
    length % 3 == 0 && length <= 768
}

/// Whether a header stands at `at` that is long enough to be read.
pub open spec fn header_at(file: Seq<u8>, at: int) -> bool {
    word_at(file, at + 4) == HEADER && word_at(file, at) >= 13
}

/// Whether, of the header at `at`, the pixels are numbers of palette entries.
pub open spec fn indexed_at(file: Seq<u8>, at: int) -> bool {
    at + 17 < file.len() && file[at + 17] == 3
}

/// Whether the palettes among the chunks from `at` up to the pixels fit, as
/// far as the pixels are numbers of their entries. A chunk is its length, its
/// name, its data and a checksum.
pub open spec fn chunks_fit(file: Seq<u8>, at: int, indexed: bool) -> bool
    decreases file.len() - at,
{
    if at < 0 || at + 8 > file.len() {
        true
    } else if word_at(file, at + 4) == PIXELS || word_at(file, at + 4) == FRAME {
        true
    } else if word_at(file, at + 4) == PALETTE && indexed && !palette_fits(word_at(file, at)) {
        false
    } else if at + 12 + word_at(file, at) > file.len() {
        true
    } else {
        chunks_fit(
            file,
            at + 12 + word_at(file, at),
            if header_at(file, at) {
                indexed_at(file, at)
            } else {
                indexed
            },
        )
    }
}

/// The number of images in an icon file.
pub open spec fn images_in(file: Seq<u8>) -> int {
    reversed_half_at(file, 4)
}

/// Whether `file` is an icon file that lists its images in full.
pub open spec fn is_icon_file(file: Seq<u8>) -> bool {
    &&& file.len() >= 6
    &&& word_at(file, 0) == 0x100
    &&& images_in(file) > 0
    &&& 6 + 16 * images_in(file) <= file.len()
}

/// A side of an image as an icon file lists it: nought stands for 256.
pub open spec fn side(byte: u8) -> int {
    if byte == 0 {
        256
    } else {
        byte as int
    }
}

/// What an image of an icon file is chosen by: its depth in bits first, then
/// its area, which is smaller than the factor of the depth.
pub open spec fn rank(file: Seq<u8>, i: int) -> int {
    reversed_half_at(file, 12 + 16 * i) * 0x2_0000 + side(file[6 + 16 * i]) * side(
        file[7 + 16 * i],
    )
}

/// The image of the highest rank among the first `n` and the last one; where
/// several have it, the last one, or else the first of them.
pub open spec fn best_image(file: Seq<u8>, n: nat) -> int
    decreases n,
{
    if n == 0 {
        images_in(file) - 1
    } else {
        let best = best_image(file, (n - 1) as nat);
        if rank(file, n - 1) > rank(file, best) {
            n - 1
        } else {
            best
        }
    }
}

/// Where the image begins that a file shows: at its start, or in an icon file
/// where the best image is said to be.
pub open spec fn image_start(file: Seq<u8>) -> int {
    if is_icon_file(file) {
        reversed_word_at(file, 18 + 16 * best_image(file, (images_in(file) - 1) as nat))
    } else {
        0
    }
}

/// Whether the palette fits in the image that a file shows, where that is a
/// PNG image with pixels that are numbers of palette entries.
pub open spec fn palettes_fit(file: Seq<u8>) -> bool {
    image_at(file, image_start(file)) ==> chunks_fit(file, image_start(file) + 8, false)
}

fn read_word(file: &[u8], at: usize) -> (r: u32)
    requires
        at + 4 <= file.len(),
    ensures
        r == word_at(file@, at as int),
{
    ((file[at] as u32 * 256 + file[at + 1] as u32) * 256 + file[at + 2] as u32) * 256 + file[at
        + 3] as u32
}

fn read_reversed_word(file: &[u8], at: usize) -> (r: u32)
    requires
        at + 4 <= file.len(),
    ensures
        r == reversed_word_at(file@, at as int),
{
    ((file[at + 3] as u32 * 256 + file[at + 2] as u32) * 256 + file[at + 1] as u32) * 256
        + file[at] as u32
}

fn read_reversed_half(file: &[u8], at: usize) -> (r: u32)
    requires
        at + 2 <= file.len(),
    ensures
        r == reversed_half_at(file@, at as int),
{
    file[at + 1] as u32 * 256 + file[at] as u32
}

fn read_side(byte: u8) -> (r: u64)
    ensures
        r == side(byte),
        r <= 256,
{
    if byte == 0 {
        256
    } else {
        byte as u64
    }
}

fn read_rank(file: &[u8], i: usize) -> (r: u64)
    requires
        6 + 16 * (i + 1) <= file.len(),
    ensures
        r == rank(file@, i as int),
{
    let width: u64 = read_side(file[6 + 16 * i]);
    let height: u64 = read_side(file[7 + 16 * i]);
    assert(width * height <= 256 * 256) by (nonlinear_arith)
        requires
            width <= 256,
            height <= 256,
    ;
    read_reversed_half(file, 12 + 16 * i) as u64 * 0x2_0000 + width * height
}

/// Where the image begins that `file` shows, if that is within the file.
fn find_image(file: &[u8]) -> (r: Option<usize>)
    ensures
        match r {
            Some(at) => at + 8 <= file.len() && at == image_start(file@) && image_at(file@, image_start(file@)),
            None => !image_at(file@, image_start(file@)),
        },
{
    if file.len() < 8 {
        return None;
    }
    let mut start: usize = 0;
    if read_word(file, 0) == 0x100 {
        let count: usize = read_reversed_half(file, 4) as usize;
        if count > 0 && 6 + 16 * count <= file.len() {
            let mut best: usize = count - 1;
            let mut i: usize = 0;
            while i < count - 1
                invariant
                    count == images_in(file@),
                    0 < count <= 0xffff,
                    6 + 16 * count <= file.len(),
                    i <= count - 1,
                    best < count,
                    best == best_image(file@, i as nat),
                decreases count - i,
            {
                if read_rank(file, i) > read_rank(file, best) {
                    best = i;
                }
                i = i + 1;
            }
            start = read_reversed_word(file, 18 + 16 * best) as usize;
        }
    }
    if start <= file.len() - 8 && read_word(file, start) == 0x8950_4e47 && read_word(
        file,
        start + 4,
    ) == 0x0d0a_1a0a {
        Some(start)
    } else {
        None
    }
}

fn check_chunks(file: &[u8], from: usize) -> (r: bool)
    requires
        from <= file.len(),
    ensures
        r == chunks_fit(file@, from as int, false),
{
    let mut at: usize = from;
    let mut indexed: bool = false;
    while file.len() - at >= 8
        invariant
            at <= file.len(),
            chunks_fit(file@, at as int, indexed) == chunks_fit(file@, from as int, false),
        decreases file.len() - at,
    {
        let length: u32 = read_word(file, at);
        let name: u32 = read_word(file, at + 4);
        if name == PIXELS || name == FRAME {
            return true;
        }
        if name == PALETTE && indexed && (length % 3 != 0 || length > 768) {
            return false;
        }
        if name == HEADER && length >= 13 {
            indexed = file.len() - at > 17 && file[at + 17] == 3;
        }
        if file.len() - at < 12 || file.len() - at - 12 < length as usize {
            return true;
        }
        at = at + 12 + length as usize;
    }
    true
}

/// Whether the palette of the image that `file` shows fits.
pub fn check_palettes(file: &[u8]) -> (r: bool)
    ensures
        r == palettes_fit(file@),
{
    match find_image(file) {
        Some(at) => check_chunks(file, at + 8),
        None => true,
    }
}

/// A bitmap has no palette of this kind, whatever its pixels are.
pub proof fn law_bitmaps_fit(file: Seq<u8>)
    requires
        file.len() >= 2,
        file[0] == 0x42,
        file[1] == 0x4d,
    ensures
        palettes_fit(file),
{
}

/// The best image of an icon file is one of those it lists, and none
/// outranks it.
pub proof fn law_best_image(file: Seq<u8>)
    requires
        is_icon_file(file),
    ensures
        ({
            let best = best_image(file, (images_in(file) - 1) as nat);
            &&& 0 <= best < images_in(file)
            &&& forall|i: int|
                0 <= i < images_in(file) ==> #[trigger] rank(file, i) <= rank(file, best)
        }),
{
    lemma_best_image(file, (images_in(file) - 1) as nat);
}

proof fn lemma_best_image(file: Seq<u8>, n: nat)
    requires
        is_icon_file(file),
        n < images_in(file),
    ensures
        0 <= best_image(file, n) < images_in(file),
        rank(file, images_in(file) - 1) <= rank(file, best_image(file, n)),
        forall|i: int| 0 <= i < n ==> #[trigger] rank(file, i) <= rank(file, best_image(file, n)),
    decreases n,
{
    if n > 0 {
        lemma_best_image(file, (n - 1) as nat);
    }
}

/// Whether the head of a palette with a length that does not fit can be read at
/// `at`.
pub open spec fn misfit_at(file: Seq<u8>, at: int) -> bool {
    &&& 0 <= at
    &&& at + 8 <= file.len()
    &&& file.subrange(at + 4, at + 8) == seq![0x50u8, 0x4c, 0x54, 0x45]
    &&& !(word_at(file, at) % 3 == 0 && word_at(file, at) <= 768)
}

proof fn lemma_chunks_fit(file: Seq<u8>, at: int, indexed: bool)
    requires
        0 <= at,
        forall|i: int| !#[trigger] misfit_at(file, i),
    ensures
        chunks_fit(file, at, indexed),
    decreases file.len() - at,
{
    if at + 8 <= file.len() {
        if word_at(file, at + 4) == PALETTE {
            let name = file.subrange(at + 4, at + 8);
            assert(name =~= seq![0x50u8, 0x4c, 0x54, 0x45]);
            assert(!misfit_at(file, at));
        }
        if at + 12 + word_at(file, at) <= file.len() {
            lemma_chunks_fit(file, at + 12 + word_at(file, at), true);
            lemma_chunks_fit(file, at + 12 + word_at(file, at), false);
        }
    }
}

/// A file is refused only if the head of a palette that does not fit can be
/// read somewhere in it.
pub proof fn law_no_file_refused_without_misfit(file: Seq<u8>)
    requires
        forall|i: int| !#[trigger] misfit_at(file, i),
    ensures
        palettes_fit(file),
{
    if image_at(file, image_start(file)) {
        lemma_chunks_fit(file, image_start(file) + 8, false);
    }
}

/// A PNG image whose header says that its pixels are numbers of palette entries
/// is refused where the palette behind the header does not fit.
pub proof fn law_palette_behind_header(file: Seq<u8>)
    requires
        file.len() >= 41,
        image_at(file, 0),
        word_at(file, 8) == 13,
        word_at(file, 12) == HEADER,
        file[25] == 3,
        misfit_at(file, 33),
    ensures
        !palettes_fit(file),
{
    let name = file.subrange(37, 41);
    assert(name[0] == 0x50 && name[1] == 0x4c && name[2] == 0x54 && name[3] == 0x45);
    assert(word_at(file, 37) == PALETTE);
    assert(!is_icon_file(file));
    reveal_with_fuel(chunks_fit, 2);
}

} // verus!
