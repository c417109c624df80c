//! Supplemental descriptions: prose attached to a class or a member, each
//! with a block of metadata that names its target.

use vstd::prelude::*;
use vstd::hash_map::StringHashMap;

verus! {

/// The metadata of one description.
pub struct Metadata {
    pub target: String,
    pub return_types: Option<Vec<String>>,
}

pub struct ItemDescription {
    pub metadata: Metadata,
    pub prose: String,
}

/// The descriptions, each under the name of its target.
pub struct SupplementalData {
    pub item_descriptions: StringHashMap<ItemDescription>,
}

/// The byte `+`, of which a fence has three.
pub const FENCE_BYTE: u8 = 43;

/// The length of a fence.
pub const FENCE_LEN: usize = 3;

/// Whether a fence stands at position `i` of `bytes`.
pub open spec fn fence_at(bytes: Seq<u8>, i: int) -> bool {
    &&& 0 <= i
    &&& i + 3 <= bytes.len()
    &&& bytes[i] == FENCE_BYTE
    &&& bytes[i + 1] == FENCE_BYTE
    &&& bytes[i + 2] == FENCE_BYTE
}

/// The positions of the fences in `bytes` from `from` on, found from left
/// to right without overlap.
pub open spec fn fence_positions(bytes: Seq<u8>, from: int) -> Seq<int>
    decreases bytes.len() - from,
{
    if from < 0 || from + 3 > bytes.len() {
        Seq::empty()
    } else if fence_at(bytes, from) {
        seq![from] + fence_positions(bytes, from + 3)
    } else {
        fence_positions(bytes, from + 1)
    }
}

/// Where the metadata and the prose of one description stand in the source,
/// as ranges of bytes between fences; each range ends before its `_end`.
#[derive(Debug, Clone, Copy, PartialEq, Eq, Structural)]
pub struct ItemFrame {
    pub metadata_start: usize,
    pub metadata_end: usize,
    pub prose_start: usize,
    pub prose_end: usize,
}

/// The descriptions that a source frames.
pub struct FramedItems {
    /// The descriptions whose metadata block is closed, in order.
    pub items: Vec<ItemFrame>,
    /// Whether a last fence opens a metadata block that nothing closes.
    pub unclosed: bool,
}

/// The frame of the description number `k`, given the positions of all
/// fences: its metadata stands between the fences `2k` and `2k + 1`, its
/// prose between the fence `2k + 1` and the next fence, or the end of the
/// source of length `len`.
pub open spec fn frame_at(positions: Seq<int>, len: int, k: int) -> (int, int, int, int) {
    (
        positions[2 * k] + 3,
        positions[2 * k + 1],
        positions[2 * k + 1] + 3,
        if 2 * k + 2 < positions.len() {
            positions[2 * k + 2]
        } else {
            len
        },
    )
}

/// The ranges of a frame, as integers.
pub open spec fn frame_ranges(frame: ItemFrame) -> (int, int, int, int) {
    (
        frame.metadata_start as int,
        frame.metadata_end as int,
        frame.prose_start as int,
        frame.prose_end as int,
    )
}

/// Each fence found stands inside the source, at or after `from`, and a
/// later one at least three bytes after the one before it.
pub proof fn lemma_fence_positions(bytes: Seq<u8>, from: int)
    requires
        0 <= from,
    ensures
        forall|k: int|
            0 <= k < fence_positions(bytes, from).len() ==> from <= (#[trigger] fence_positions(
                bytes,
                from,
            )[k]) && fence_at(bytes, fence_positions(bytes, from)[k]),
        forall|k: int|
            0 <= k && k + 1 < fence_positions(bytes, from).len() ==> (#[trigger] fence_positions(
                bytes,
                from,
            )[k]) + 3 <= fence_positions(bytes, from)[k + 1],
    decreases bytes.len() - from,
{
    let all = fence_positions(bytes, from);
    if from + 3 > bytes.len() {
        assert(all.len() == 0);
    } else if fence_at(bytes, from) {
        lemma_fence_positions(bytes, from + 3);
        let rest = fence_positions(bytes, from + 3);
        assert(all =~= seq![from] + rest);
        assert forall|k: int| 0 <= k < all.len() implies from <= (#[trigger] all[k]) && fence_at(
            bytes,
            all[k],
        ) by {
            if k > 0 {
                assert(all[k] == rest[k - 1]);
            }
        }
        assert forall|k: int| 0 <= k && k + 1 < all.len() implies (#[trigger] all[k]) + 3
            <= all[k + 1] by {
            assert(all[k + 1] == rest[k]);
            if k > 0 {
                assert(all[k] == rest[k - 1]);
            }
        }
    } else {
        lemma_fence_positions(bytes, from + 1);
        let rest = fence_positions(bytes, from + 1);
        assert(all == rest);
        assert forall|k: int| 0 <= k < all.len() implies from <= (#[trigger] all[k]) && fence_at(
            bytes,
            all[k],
        ) by {
            assert(from + 1 <= rest[k]);
        }
        assert forall|k: int| 0 <= k && k + 1 < all.len() implies (#[trigger] all[k]) + 3
            <= all[k + 1] by {
            assert(rest[k] + 3 <= rest[k + 1]);
        }
    }
}

/// Finds the fences in `bytes`.
fn find_fences(bytes: &[u8]) -> (found: Vec<usize>)
    ensures
        found@.map_values(|p: usize| p as int) == fence_positions(bytes@, 0),
{
    let len: usize = bytes.len();
    let mut found: Vec<usize> = Vec::new();
    let mut i: usize = 0;
    while i < len && len - i >= FENCE_LEN
        invariant
            len == bytes@.len(),
            i <= len + 2,
            fence_positions(bytes@, 0) == found@.map_values(|p: usize| p as int)
                + fence_positions(bytes@, i as int),
        decreases len + 2 - i,
    {
        let ghost before = found@.map_values(|p: usize| p as int);
        if bytes[i] == FENCE_BYTE && bytes[i + 1] == FENCE_BYTE && bytes[i + 2] == FENCE_BYTE {
            found.push(i);
            assert(found@.map_values(|p: usize| p as int) =~= before.push(i as int));
            assert(before + (seq![i as int] + fence_positions(bytes@, i + 3)) =~= before.push(
                i as int,
            ) + fence_positions(bytes@, i + 3));
            i = i + FENCE_LEN;
        } else {
            i = i + 1;
        }
    }
    assert(fence_positions(bytes@, i as int) =~= Seq::<int>::empty());
    assert(found@.map_values(|p: usize| p as int) + Seq::<int>::empty() =~= found@.map_values(
        |p: usize| p as int,
    ));
    found
}

/// Frames the descriptions in a source: a fence opens a block of metadata,
/// the next fence closes it, and prose follows up to the next fence or the
/// end. A last fence that nothing closes is reported, and the descriptions
/// before it are still framed.
pub fn parse_item_descriptions(source: &[u8]) -> (framed: FramedItems)
    ensures
        framed.unclosed == (fence_positions(source@, 0).len() % 2 == 1),
        framed.items@.len() == fence_positions(source@, 0).len() / 2,
        forall|k: int|
            0 <= k < framed.items@.len() ==> frame_ranges(#[trigger] framed.items@[k]) == frame_at(
                fence_positions(source@, 0),
                source@.len() as int,
                k,
            ),
{
    let fences = find_fences(source);
    let ghost positions = fence_positions(source@, 0);
    proof {
        lemma_fence_positions(source@, 0);
        assert forall|j: int| 0 <= j < fences@.len() implies fences@[j] as int == positions[j] by {
            assert(fences@.map_values(|p: usize| p as int)[j] == fences@[j] as int);
        }
    }
    let len: usize = source.len();
    let total: usize = fences.len();
    let count: usize = total / 2;
    let mut items: Vec<ItemFrame> = Vec::new();
    let mut k: usize = 0;
    while k < count
        invariant
            k <= count,
            len == source@.len(),
            total == fences@.len(),
            count == total / 2,
            positions == fence_positions(source@, 0),
            fences@.len() == positions.len(),
            forall|j: int| 0 <= j < fences@.len() ==> fences@[j] as int == positions[j],
            forall|j: int|
                0 <= j < positions.len() ==> 0 <= (#[trigger] positions[j]) && fence_at(
                    source@,
                    positions[j],
                ),
            items@.len() == k,
            forall|j: int|
                0 <= j < k ==> frame_ranges(#[trigger] items@[j]) == frame_at(
                    positions,
                    source@.len() as int,
                    j,
                ),
        decreases count - k,
    {
        assert(fence_at(source@, positions[2 * k]));
        assert(fence_at(source@, positions[2 * k + 1]));
        let opening: usize = fences[2 * k];
        let closing: usize = fences[2 * k + 1];
        let prose_end: usize = if 2 * k + 2 < total {
            fences[2 * k + 2]
        } else {
            len
        };
        items.push(
            ItemFrame {
                metadata_start: opening + FENCE_LEN,
                metadata_end: closing,
                prose_start: closing + FENCE_LEN,
                prose_end,
            },
        );
        k = k + 1;
    }
    FramedItems { items, unclosed: total % 2 == 1 }
}

impl SupplementalData {
    /// Data without any description.
    pub fn new() -> (data: SupplementalData)
        ensures
            data.item_descriptions@ == Map::<Seq<char>, ItemDescription>::empty(),
    {
        SupplementalData { item_descriptions: StringHashMap::new() }
    }

    /// Records a description under the name of its target. It replaces an
    /// earlier one for the same target.
    pub fn insert(&mut self, metadata: Metadata, prose: String)
        ensures
            final(self).item_descriptions@ == old(self).item_descriptions@.insert(
                metadata.target@,
                ItemDescription { metadata, prose },
            ),
    {
        let target = metadata.target.clone();
        self.item_descriptions.insert(target, ItemDescription { metadata, prose });
    }
}

} // verus!
