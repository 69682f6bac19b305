//! Materials and the bytes they occupy in the storage buffer.

use vstd::prelude::*;

verus! {

/// The size of one material in the storage buffer, in bytes.
pub const MATERIAL_SIZE: usize = 16;

/// The bit pattern of the single-precision number 0.0.
pub const F32_ZERO: u32 = 0;

/// The bit pattern of the single-precision number nearest to 0.3.
pub const F32_THREE_TENTHS: u32 = 0x3E99_999A;

/// The bit pattern of the single-precision number 1.0.
pub const F32_ONE: u32 = 0x3F80_0000;

/// One material: an RGBA colour. Each channel is held as the bit pattern of
/// a single-precision number, so the value is sixteen bytes with no padding,
/// which is the element layout the fragment stage reads.
#[derive(Clone, Copy, Debug, PartialEq, Eq, Hash)]
pub struct Material {
    pub colour: [u32; 4],
}

/// The four bytes of `word`, least significant first.
pub open spec fn le_bytes(word: u32) -> Seq<u8> {
    seq![
        (word & 0xff) as u8,
        ((word >> 8) & 0xff) as u8,
        ((word >> 16) & 0xff) as u8,
        ((word >> 24) & 0xff) as u8,
    ]
}

/// The four bytes of `word`, most significant first.
pub open spec fn be_bytes(word: u32) -> Seq<u8> {
    seq![
        ((word >> 24) & 0xff) as u8,
        ((word >> 16) & 0xff) as u8,
        ((word >> 8) & 0xff) as u8,
        (word & 0xff) as u8,
    ]
}

/// The words of a table in buffer order: material after material, and within
/// a material red, green, blue, alpha.
pub open spec fn table_words(table: Seq<Material>) -> Seq<u32> {
    Seq::new(4 * table.len(), |i: int| table[i / 4].colour[i % 4])
}

/// `words` laid out in memory on a little-endian machine.
pub open spec fn words_le(words: Seq<u32>) -> Seq<u8> {
    Seq::new(4 * words.len(), |i: int| le_bytes(words[i / 4])[i % 4])
}

/// `words` laid out in memory on a big-endian machine.
pub open spec fn words_be(words: Seq<u32>) -> Seq<u8> {
    Seq::new(4 * words.len(), |i: int| be_bytes(words[i / 4])[i % 4])
}

/// Whether `bytes` is `words` as some machine lays them out in memory: every
/// word in four bytes, all of them in the same byte order.
pub open spec fn is_memory_of(bytes: Seq<u8>, words: Seq<u32>) -> bool {
    bytes == words_le(words) || bytes == words_be(words)
}

/// The materials of the scene: opaque yellow, a grey of 0.3 in every channel
/// and opaque white.
pub open spec fn scene_materials() -> Seq<Material> {
    seq![
        Material { colour: [F32_ONE, F32_ONE, F32_ZERO, F32_ONE] },
        Material {
            colour: [F32_THREE_TENTHS, F32_THREE_TENTHS, F32_THREE_TENTHS, F32_THREE_TENTHS],
        },
        Material { colour: [F32_ONE, F32_ONE, F32_ONE, F32_ONE] },
    ]
}

/// Whether a table may have `len` materials: at least one, no more than a
/// binding can declare, and no more than fit in memory as bytes.
pub open spec fn valid_table_len(len: nat) -> bool {
    0 < len <= u32::MAX && len * MATERIAL_SIZE <= usize::MAX
}

/// Reinterprets the words as bytes with `bytemuck::cast_slice`, which hands
/// back the same memory as a byte slice, and copies them into a vector. The
/// contract claims that the result is the words in this machine's byte
/// order, four bytes per word, without saying which of the two orders that
/// is. Casting from `u32` to `u8` cannot fail: the target is not more
/// strictly aligned and has size one.
#[verifier::external_body]
fn cast_words(words: &Vec<u32>) -> (bytes: Vec<u8>)
    ensures
        is_memory_of(bytes@, words@),
{
    bytemuck::cast_slice::<u32, u8>(words.as_slice()).to_vec()
}

/// The ordered, immutable table of materials that is uploaded once.
#[derive(Debug)]
pub struct MaterialTable {
    materials: Vec<Material>,
}

impl View for MaterialTable {
    type V = Seq<Material>;

    closed spec fn view(&self) -> Seq<Material> {
        self.materials@
    }
}

impl MaterialTable {
    #[verifier::type_invariant]
    spec fn well_formed(self) -> bool {
        valid_table_len(self.materials@.len())
    }

    /// Makes a table of the given materials, in their order. `None` exactly
    /// when their number is not one a table may have.
    pub fn new(materials: Vec<Material>) -> (table: Option<MaterialTable>)
        ensures
            table is Some <==> valid_table_len(materials@.len()),
            table matches Some(t) ==> t@ == materials@,
    {
        let len = materials.len();
        if len == 0 || len > usize::MAX / MATERIAL_SIZE || len > u32::MAX as usize {
            None
        } else {
            Some(MaterialTable { materials })
        }
    }

    /// The table of the scene's three materials.
    pub fn scene() -> (table: MaterialTable)
        ensures
            table@ == scene_materials(),
    {
        let mut materials: Vec<Material> = Vec::new();
        materials.push(Material { colour: [F32_ONE, F32_ONE, F32_ZERO, F32_ONE] });
        materials.push(
            Material {
                colour: [F32_THREE_TENTHS, F32_THREE_TENTHS, F32_THREE_TENTHS, F32_THREE_TENTHS],
            },
        );
        materials.push(Material { colour: [F32_ONE, F32_ONE, F32_ONE, F32_ONE] });
        MaterialTable { materials }
    }

    /// The number of materials.
    pub fn len(&self) -> (len: usize)
        ensures
            len == self@.len(),
            valid_table_len(len as nat),
    {
        proof {
            use_type_invariant(self);
        }
        self.materials.len()
    }

    /// The material at `index`, or `None` past the end.
    pub fn get(&self, index: usize) -> (material: Option<Material>)
        ensures
            material == if index < self@.len() {
                Some(self@[index as int])
            } else {
                None
            },
    {
        if index < self.materials.len() {
            Some(self.materials[index])
        } else {
            None
        }
    }

    /// The number of bytes the table occupies in the buffer.
    pub fn byte_len(&self) -> (len: usize)
        ensures
            len == self@.len() * MATERIAL_SIZE,
    {
        proof {
            use_type_invariant(self);
        }
        self.materials.len() * MATERIAL_SIZE
    }

    /// The table as words in buffer order.
    fn words(&self) -> (words: Vec<u32>)
        ensures
            words@ == table_words(self@),
    {
        let mut words: Vec<u32> = Vec::new();
        let mut i: usize = 0;
        while i < self.materials.len()
            invariant
                i <= self.materials.len(),
                words@.len() == 4 * i,
                forall|k: int|
                    0 <= k < 4 * i ==> words@[k] == (#[trigger] self.materials@[k / 4]).colour[k
                        % 4],
            decreases self.materials.len() - i,
        {
            let colour = self.materials[i].colour;
            words.push(colour[0]);
            words.push(colour[1]);
            words.push(colour[2]);
            words.push(colour[3]);
            i += 1;
        }
        assert(words@ =~= table_words(self@));
        words
    }

    /// The contents of the storage buffer: the materials in order, sixteen
    /// bytes each, every channel in four bytes in this machine's byte order.
    pub fn to_bytes(&self) -> (bytes: Vec<u8>)
        ensures
            is_memory_of(bytes@, table_words(self@)),
            bytes@.len() == self@.len() * MATERIAL_SIZE,
    {
        let words = self.words();
        cast_words(&words)
    }
}

} // verus!
