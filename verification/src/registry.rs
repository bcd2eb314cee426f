//! A model of the account store the host chain keeps for the registry: the
//! board singleton and two address-indexed families of records, pixels keyed
//! by pixel id and owner-index records keyed by wallet. Each operation is one
//! atomic request: it either rejects and leaves the store untouched, or
//! applies all of its writes.

use vstd::prelude::*;

use crate::identity::{admin_identity, admin_spec, Identity};
use crate::records::{
    claimed_pixel, license_updated, metadata_fits, pixel_id_in_range, Board, OwnerIndex, Pixel,
    PixelError, RegistryError, MAX_METADATA_URI_LEN,
};

verus! {

/// The board singleton together with the address the host assigned to it.
#[derive(Clone, Copy, PartialEq, Eq, Structural, Debug)]
pub struct BoardSlot {
    /// Where the board is stored; pixels keep it as a back-reference.
    pub address: Identity,
    /// The board record itself.
    pub record: Board,
}

/// Whether the owner-index record `oi` is the one written by the claim that
/// produced the pixel record `p`.
pub open spec fn paired(p: Pixel, oi: OwnerIndex) -> bool {
    oi.owner == p.owner && oi.pixel_id == p.pixel_id
}

/// The registry's durable state. A pixel or owner-index record exists exactly
/// from the claim that wrote it on; nothing is ever destroyed.
pub struct PixelRegistry {
    /// The board, once initialized.
    pub board: Option<BoardSlot>,
    /// Every claimed pixel, one record per claimed cell.
    pub pixels: Vec<Pixel>,
    /// One record per wallet that has claimed a pixel.
    pub owner_indexes: Vec<OwnerIndex>,
}

impl PixelRegistry {
    /// Whether the board singleton has been created.
    pub open spec fn is_initialized(self) -> bool {
        self.board is Some
    }

    /// Grid capacity, once the board exists.
    pub open spec fn total_pixels(self) -> u16 {
        self.board->0.record.total_pixels
    }

    /// The board's address, once the board exists.
    pub open spec fn board_address(self) -> Identity {
        self.board->0.address
    }

    /// Whether the cell `pixel_id` has been claimed.
    pub open spec fn has_pixel(self, pixel_id: u16) -> bool {
        exists|i: int|
            0 <= i < self.pixels@.len() && (#[trigger] self.pixels@[i]).pixel_id == pixel_id
    }

    /// Position of the record for cell `pixel_id`; meaningful only when
    /// `has_pixel` holds and the ids are distinct.
    pub open spec fn pixel_index(self, pixel_id: u16) -> int {
        choose|i: int|
            0 <= i < self.pixels@.len() && (#[trigger] self.pixels@[i]).pixel_id == pixel_id
    }

    /// The record for cell `pixel_id`.
    pub open spec fn pixel_spec(self, pixel_id: u16) -> Pixel {
        self.pixels@[self.pixel_index(pixel_id)]
    }

    /// Whether the wallet `owner` has claimed some pixel.
    pub open spec fn has_owner(self, owner: Identity) -> bool {
        exists|j: int|
            0 <= j < self.owner_indexes@.len() && (#[trigger] self.owner_indexes@[j]).owner
                == owner
    }

    /// Position of the owner-index record of `owner`; meaningful only when
    /// `has_owner` holds and the owners are distinct.
    pub open spec fn owner_pos(self, owner: Identity) -> int {
        choose|j: int|
            0 <= j < self.owner_indexes@.len() && (#[trigger] self.owner_indexes@[j]).owner
                == owner
    }

    /// The owner-index record of `owner`.
    pub open spec fn owner_index_spec(self, owner: Identity) -> OwnerIndex {
        self.owner_indexes@[self.owner_pos(owner)]
    }

    /// The pixel record at position `i` is well formed: its id addresses a
    /// cell of the board, its owner is set, its metadata fits, and it points
    /// back at the board.
    pub open spec fn pixel_wf(self, i: int) -> bool {
        &&& pixel_id_in_range(self.pixels@[i].pixel_id, self.total_pixels())
        &&& !self.pixels@[i].owner.is_unset()
        &&& metadata_fits(self.pixels@[i].metadata_uri@)
        &&& self.pixels@[i].board == self.board_address()
    }

    /// The owner-index record at position `j` is well formed: its owner is
    /// set and it names a cell of the board.
    pub open spec fn index_wf(self, j: int) -> bool {
        &&& !self.owner_indexes@[j].owner.is_unset()
        &&& pixel_id_in_range(self.owner_indexes@[j].pixel_id, self.total_pixels())
    }

    /// No two pixel records share a cell.
    pub open spec fn pixel_ids_distinct(self) -> bool {
        forall|i: int, k: int|
            0 <= i < self.pixels@.len() && 0 <= k < self.pixels@.len() && i != k ==> (
            #[trigger] self.pixels@[i]).pixel_id != (#[trigger] self.pixels@[k]).pixel_id
    }

    /// No two owner-index records share a wallet.
    pub open spec fn owners_distinct(self) -> bool {
        forall|j: int, k: int|
            0 <= j < self.owner_indexes@.len() && 0 <= k < self.owner_indexes@.len() && j != k
                ==> (#[trigger] self.owner_indexes@[j]).owner != (
            #[trigger] self.owner_indexes@[k]).owner
    }

    /// The claim that wrote the pixel at position `i` also wrote an
    /// owner-index record, and it is still there.
    pub open spec fn pixel_has_index(self, i: int) -> bool {
        exists|j: int|
            0 <= j < self.owner_indexes@.len() && paired(
                self.pixels@[i],
                #[trigger] self.owner_indexes@[j],
            )
    }

    /// The claim that wrote the owner-index record at position `j` also
    /// wrote a pixel record, and it is still there.
    pub open spec fn index_has_pixel(self, j: int) -> bool {
        exists|i: int|
            0 <= i < self.pixels@.len() && paired(
                #[trigger] self.pixels@[i],
                self.owner_indexes@[j],
            )
    }

    /// The registry's invariant: records exist only under an initialized
    /// board, every record is well formed, cells and wallets are taken at
    /// most once, and pixel and owner-index records come in matched pairs.
    pub open spec fn inv(self) -> bool {
        &&& (self.pixels@.len() > 0 || self.owner_indexes@.len() > 0) ==> self.is_initialized()
        &&& forall|i: int| 0 <= i < self.pixels@.len() ==> #[trigger] self.pixel_wf(i)
        &&& forall|j: int| 0 <= j < self.owner_indexes@.len() ==> #[trigger] self.index_wf(j)
        &&& self.pixel_ids_distinct()
        &&& self.owners_distinct()
        &&& forall|i: int| 0 <= i < self.pixels@.len() ==> #[trigger] self.pixel_has_index(i)
        &&& forall|j: int| 0 <= j < self.owner_indexes@.len() ==> #[trigger] self.index_has_pixel(
            j,
        )
    }

    /// An empty registry: no board, no records.
    pub fn new() -> (r: PixelRegistry)
        ensures
            r.inv(),
            !r.is_initialized(),
            r.pixels@ == Seq::<Pixel>::empty(),
            r.owner_indexes@ == Seq::<OwnerIndex>::empty(),
    {
        PixelRegistry { board: None, pixels: Vec::new(), owner_indexes: Vec::new() }
    }

    /// Finds the position of the record for cell `pixel_id`, if any.
    fn find_pixel(&self, pixel_id: u16) -> (r: Option<usize>)
        ensures
            match r {
                Some(i) => 0 <= i < self.pixels@.len() && self.pixels@[i as int].pixel_id
                    == pixel_id,
                None => !self.has_pixel(pixel_id),
            },
    {
        let mut i: usize = 0;
        while i < self.pixels.len()
            invariant
                i <= self.pixels@.len(),
                forall|k: int| 0 <= k < i ==> (#[trigger] self.pixels@[k]).pixel_id != pixel_id,
            decreases self.pixels@.len() - i,
        {
            if self.pixels[i].pixel_id == pixel_id {
                return Some(i);
            }
            i = i + 1;
        }
        None
    }

    /// Finds the position of the owner-index record of `owner`, if any.
    fn find_owner(&self, owner: Identity) -> (r: Option<usize>)
        ensures
            match r {
                Some(j) => 0 <= j < self.owner_indexes@.len() && self.owner_indexes@[j as int].owner
                    == owner,
                None => !self.has_owner(owner),
            },
    {
        let mut j: usize = 0;
        while j < self.owner_indexes.len()
            invariant
                j <= self.owner_indexes@.len(),
                forall|k: int| 0 <= k < j ==> (#[trigger] self.owner_indexes@[k]).owner != owner,
            decreases self.owner_indexes@.len() - j,
        {
            if self.owner_indexes[j].owner == owner {
                return Some(j);
            }
            j = j + 1;
        }
        None
    }

    /// Creates the board exactly once. Only the fixed admin identity may do
    /// so; once the board's storage slot exists, any further attempt is
    /// refused by the store itself.
    pub fn initialize_board(
        &mut self,
        caller: Identity,
        board_address: Identity,
        total_pixels: u16,
        bump: u8,
    ) -> (r: Result<(), RegistryError>)
        requires
            old(self).inv(),
        ensures
            final(self).inv(),
            r is Err ==> *final(self) == *old(self),
            (r == Err::<(), RegistryError>(
                RegistryError::Rejected(PixelError::UnauthorizedInitializer),
            )) <==> caller != admin_spec(),
            (r == Err::<(), RegistryError>(RegistryError::BoardAlreadyExists)) <==> (caller
                == admin_spec() && old(self).is_initialized()),
            r is Ok <==> (caller == admin_spec() && !old(self).is_initialized()),
            r is Ok ==> final(self).board == (Some(
                BoardSlot {
                    address: board_address,
                    record: (Board { authority: caller, total_pixels, bump }),
                },
            )) && final(self).pixels@ == old(self).pixels@ && final(self).owner_indexes@ == old(self).owner_indexes@,
    {
        let admin = admin_identity();
        if !(caller == admin) {
            return Err(RegistryError::Rejected(PixelError::UnauthorizedInitializer));
        }
        if self.board.is_some() {
            return Err(RegistryError::BoardAlreadyExists);
        }
        self.board = Some(
            BoardSlot { address: board_address, record: Board { authority: caller, total_pixels, bump } },
        );
        Ok(())
    }

    /// Claims the cell `pixel_id` for `caller`, stamping the claim with the
    /// platform clock `now` and storing the two derivation nonces the host
    /// found for the new records. Checks come in a fixed order: the board
    /// must exist, the id must address a cell, the metadata must fit, the
    /// cell must be free, and the wallet must not have claimed before; on
    /// success exactly one pixel record and one owner-index record are
    /// appended.
    pub fn claim_pixel(
        &mut self,
        caller: Identity,
        pixel_id: u16,
        price_lamports: u64,
        lease_expires_at: i64,
        metadata_uri: Vec<u8>,
        now: i64,
        pixel_bump: u8,
        owner_index_bump: u8,
    ) -> (r: Result<(), RegistryError>)
        requires
            old(self).inv(),
            // the host only accepts signed requests, and no wallet signs
            // with the null identity
            !caller.is_unset(),
        ensures
            final(self).inv(),
            r is Err ==> *final(self) == *old(self),
            (r == Err::<(), RegistryError>(RegistryError::BoardMissing)) <==> !old(self).is_initialized(),
            (r == Err::<(), RegistryError>(RegistryError::Rejected(PixelError::InvalidPixelId)))
                <==> (old(self).is_initialized() && !pixel_id_in_range(
                pixel_id,
                old(self).total_pixels(),
            )),
            (r == Err::<(), RegistryError>(RegistryError::Rejected(PixelError::MetadataTooLong)))
                <==> (old(self).is_initialized() && pixel_id_in_range(
                pixel_id,
                old(self).total_pixels(),
            ) && !metadata_fits(metadata_uri@)),
            (r == Err::<(), RegistryError>(RegistryError::Rejected(PixelError::AlreadyClaimed)))
                <==> (old(self).is_initialized() && pixel_id_in_range(
                pixel_id,
                old(self).total_pixels(),
            ) && metadata_fits(metadata_uri@) && old(self).has_pixel(pixel_id)),
            (r == Err::<(), RegistryError>(RegistryError::Rejected(PixelError::AlreadyOwnsPixel)))
                <==> (old(self).is_initialized() && pixel_id_in_range(
                pixel_id,
                old(self).total_pixels(),
            ) && metadata_fits(metadata_uri@) && !old(self).has_pixel(pixel_id) && old(self).has_owner(caller)),
            r is Ok <==> (old(self).is_initialized() && pixel_id_in_range(
                pixel_id,
                old(self).total_pixels(),
            ) && metadata_fits(metadata_uri@) && !old(self).has_pixel(pixel_id) && !old(self).has_owner(caller)),
            r is Ok ==> final(self).board == old(self).board && final(self).pixels@ == old(self).pixels@.push(final(self).pixels@.last()) && claimed_pixel(
                final(self).pixels@.last(),
                old(self).board_address(),
                pixel_id,
                caller,
                price_lamports,
                lease_expires_at,
                metadata_uri@,
                now,
                pixel_bump,
            ) && final(self).owner_indexes@ == old(self).owner_indexes@.push(
                final(self).owner_indexes@.last(),
            ) && final(self).owner_indexes@.last() == (OwnerIndex {
                owner: caller,
                pixel_id,
                bump: owner_index_bump,
            }),
            r is Ok ==> final(self).has_pixel(pixel_id) && final(self).has_owner(caller) && final(self).pixel_spec(pixel_id) == final(self).pixels@.last() && final(self).owner_index_spec(
                caller,
            ) == final(self).owner_indexes@.last(),
    {
        let slot = match self.board {
            Some(s) => s,
            None => {
                return Err(RegistryError::BoardMissing);
            },
        };
        if !(pixel_id > 0 && pixel_id <= slot.record.total_pixels) {
            return Err(RegistryError::Rejected(PixelError::InvalidPixelId));
        }
        if metadata_uri.len() > MAX_METADATA_URI_LEN {
            return Err(RegistryError::Rejected(PixelError::MetadataTooLong));
        }
        if self.find_pixel(pixel_id).is_some() {
            return Err(RegistryError::Rejected(PixelError::AlreadyClaimed));
        }
        if self.find_owner(caller).is_some() {
            return Err(RegistryError::Rejected(PixelError::AlreadyOwnsPixel));
        }
        let pixel = Pixel {
            board: slot.address,
            pixel_id,
            owner: caller,
            price_lamports,
            lease_expires_at,
            metadata_uri,
            claimed_at: now,
            bump: pixel_bump,
        };
        let index = OwnerIndex { owner: caller, pixel_id, bump: owner_index_bump };
        self.pixels.push(pixel);
        self.owner_indexes.push(index);
        proof {
            lemma_claim_preserves_inv(*old(self), *self, pixel_id, caller);
            lemma_pixel_spec_at(*self, self.pixels@.len() - 1);
            lemma_owner_spec_at(*self, self.owner_indexes@.len() - 1);
        }
        Ok(())
    }

    /// Overwrites the license fields of the claimed cell `pixel_id` at its
    /// owner's request: the record must exist, the caller must be its owner,
    /// and the new metadata must fit; everything else about the record, and
    /// every other record, is untouched.
    pub fn set_pixel_license(
        &mut self,
        caller: Identity,
        pixel_id: u16,
        price_lamports: u64,
        lease_expires_at: i64,
        metadata_uri: Vec<u8>,
    ) -> (r: Result<(), RegistryError>)
        requires
            old(self).inv(),
        ensures
            final(self).inv(),
            r is Err ==> *final(self) == *old(self),
            (r == Err::<(), RegistryError>(RegistryError::PixelMissing)) <==> !old(self).has_pixel(
                pixel_id,
            ),
            (r == Err::<(), RegistryError>(RegistryError::Rejected(PixelError::NotOwner))) <==> (
            old(self).has_pixel(pixel_id) && old(self).pixel_spec(pixel_id).owner != caller),
            (r == Err::<(), RegistryError>(RegistryError::Rejected(PixelError::MetadataTooLong)))
                <==> (old(self).has_pixel(pixel_id) && old(self).pixel_spec(pixel_id).owner
                == caller && !metadata_fits(metadata_uri@)),
            r is Ok <==> (old(self).has_pixel(pixel_id) && old(self).pixel_spec(pixel_id).owner
                == caller && metadata_fits(metadata_uri@)),
            r is Ok ==> final(self).board == old(self).board && final(self).owner_indexes@ == old(self).owner_indexes@ && final(self).pixels@ == old(self).pixels@.update(
                old(self).pixel_index(pixel_id),
                final(self).pixel_spec(pixel_id),
            ) && license_updated(
                old(self).pixel_spec(pixel_id),
                final(self).pixel_spec(pixel_id),
                price_lamports,
                lease_expires_at,
                metadata_uri@,
            ),
    {
        let idx = match self.find_pixel(pixel_id) {
            Some(i) => i,
            None => {
                return Err(RegistryError::PixelMissing);
            },
        };
        proof {
            lemma_pixel_spec_at(*self, idx as int);
        }
        if !(self.pixels[idx].owner == caller) {
            return Err(RegistryError::Rejected(PixelError::NotOwner));
        }
        if metadata_uri.len() > MAX_METADATA_URI_LEN {
            return Err(RegistryError::Rejected(PixelError::MetadataTooLong));
        }
        let p = &mut self.pixels[idx];
        p.price_lamports = price_lamports;
        p.lease_expires_at = lease_expires_at;
        p.metadata_uri = metadata_uri;
        proof {
            lemma_license_update_preserves_inv(*old(self), *self, idx as int);
            lemma_pixel_spec_at(*self, idx as int);
        }
        Ok(())
    }

    /// The record for cell `pixel_id`, if the cell has been claimed.
    pub fn pixel(&self, pixel_id: u16) -> (r: Option<&Pixel>)
        requires
            self.inv(),
        ensures
            match r {
                Some(p) => self.has_pixel(pixel_id) && *p == self.pixel_spec(pixel_id)
                    && p.pixel_id == pixel_id,
                None => !self.has_pixel(pixel_id),
            },
    {
        match self.find_pixel(pixel_id) {
            Some(i) => {
                proof {
                    lemma_pixel_spec_at(*self, i as int);
                }
                Some(&self.pixels[i])
            },
            None => None,
        }
    }

    /// The owner-index record of `owner`, if that wallet has claimed.
    pub fn owner_index(&self, owner: Identity) -> (r: Option<&OwnerIndex>)
        requires
            self.inv(),
        ensures
            match r {
                Some(oi) => self.has_owner(owner) && *oi == self.owner_index_spec(owner)
                    && oi.owner == owner,
                None => !self.has_owner(owner),
            },
    {
        match self.find_owner(owner) {
            Some(j) => {
                proof {
                    lemma_owner_spec_at(*self, j as int);
                }
                Some(&self.owner_indexes[j])
            },
            None => None,
        }
    }
}

/// In a registry with distinct cell ids, the record at position `i` is the
/// record `pixel_spec` names for its id.
pub proof fn lemma_pixel_spec_at(r: PixelRegistry, i: int)
    requires
        r.pixel_ids_distinct(),
        0 <= i < r.pixels@.len(),
    ensures
        r.has_pixel(r.pixels@[i].pixel_id),
        r.pixel_index(r.pixels@[i].pixel_id) == i,
        r.pixel_spec(r.pixels@[i].pixel_id) == r.pixels@[i],
{
    let id = r.pixels@[i].pixel_id;
    assert(r.has_pixel(id));
    let k = r.pixel_index(id);
    assert(0 <= k < r.pixels@.len() && r.pixels@[k].pixel_id == id);
    assert(k == i);
}

/// In a registry with distinct owners, the owner-index record at position
/// `j` is the record `owner_index_spec` names for its wallet.
pub proof fn lemma_owner_spec_at(r: PixelRegistry, j: int)
    requires
        r.owners_distinct(),
        0 <= j < r.owner_indexes@.len(),
    ensures
        r.has_owner(r.owner_indexes@[j].owner),
        r.owner_pos(r.owner_indexes@[j].owner) == j,
        r.owner_index_spec(r.owner_indexes@[j].owner) == r.owner_indexes@[j],
{
    let w = r.owner_indexes@[j].owner;
    assert(r.has_owner(w));
    let k = r.owner_pos(w);
    assert(0 <= k < r.owner_indexes@.len() && r.owner_indexes@[k].owner == w);
    assert(k == j);
}

/// One pixel per wallet: in a well-formed registry, two pixel records with
/// the same owner are the same record.
pub proof fn lemma_one_pixel_per_wallet(r: PixelRegistry, i: int, k: int)
    requires
        r.inv(),
        0 <= i < r.pixels@.len(),
        0 <= k < r.pixels@.len(),
        r.pixels@[i].owner == r.pixels@[k].owner,
    ensures
        i == k,
{
    assert(r.pixel_has_index(i));
    assert(r.pixel_has_index(k));
    let ji = choose|j: int|
        0 <= j < r.owner_indexes@.len() && paired(r.pixels@[i], #[trigger] r.owner_indexes@[j]);
    let jk = choose|j: int|
        0 <= j < r.owner_indexes@.len() && paired(r.pixels@[k], #[trigger] r.owner_indexes@[j]);
    assert(r.owner_indexes@[ji].owner == r.owner_indexes@[jk].owner);
    assert(ji == jk);
    assert(r.pixels@[i].pixel_id == r.pixels@[k].pixel_id);
    assert(i == k);
}

/// The owner index agrees with the pixel records: an owner-index record and
/// a pixel record of the same wallet name the same cell.
pub proof fn lemma_index_matches_pixel(r: PixelRegistry, i: int, j: int)
    requires
        r.inv(),
        0 <= i < r.pixels@.len(),
        0 <= j < r.owner_indexes@.len(),
        r.pixels@[i].owner == r.owner_indexes@[j].owner,
    ensures
        r.pixels@[i].pixel_id == r.owner_indexes@[j].pixel_id,
{
    assert(r.index_has_pixel(j));
    let i2 = choose|i2: int|
        0 <= i2 < r.pixels@.len() && paired(#[trigger] r.pixels@[i2], r.owner_indexes@[j]);
    lemma_one_pixel_per_wallet(r, i, i2);
}

/// A successful claim — one pixel record and one matching owner-index record
/// appended, the cell and the wallet both previously unused — preserves the
/// registry invariant.
proof fn lemma_claim_preserves_inv(
    pre: PixelRegistry,
    post: PixelRegistry,
    pixel_id: u16,
    caller: Identity,
)
    requires
        pre.inv(),
        pre.is_initialized(),
        !pre.has_pixel(pixel_id),
        !pre.has_owner(caller),
        !caller.is_unset(),
        post.board == pre.board,
        post.pixels@.len() == pre.pixels@.len() + 1,
        post.pixels@ == pre.pixels@.push(post.pixels@.last()),
        post.owner_indexes@.len() == pre.owner_indexes@.len() + 1,
        post.owner_indexes@ == pre.owner_indexes@.push(post.owner_indexes@.last()),
        post.pixels@.last().pixel_id == pixel_id,
        post.pixels@.last().owner == caller,
        pixel_id_in_range(pixel_id, pre.total_pixels()),
        metadata_fits(post.pixels@.last().metadata_uri@),
        post.pixels@.last().board == pre.board_address(),
        post.owner_indexes@.last() == (OwnerIndex {
            owner: caller,
            pixel_id,
            bump: post.owner_indexes@.last().bump,
        }),
    ensures
        post.inv(),
{
    let np = post.pixels@.len() as int;
    let no = post.owner_indexes@.len() as int;
    assert forall|i: int| 0 <= i < np implies #[trigger] post.pixel_wf(i) by {
        if i < np - 1 {
            assert(pre.pixel_wf(i));
            assert(post.pixels@[i] == pre.pixels@[i]);
        }
    }
    assert forall|j: int| 0 <= j < no implies #[trigger] post.index_wf(j) by {
        if j < no - 1 {
            assert(pre.index_wf(j));
            assert(post.owner_indexes@[j] == pre.owner_indexes@[j]);
        }
    }
    assert forall|i: int, k: int|
        0 <= i < np && 0 <= k < np && i != k implies (#[trigger] post.pixels@[i]).pixel_id != (
    #[trigger] post.pixels@[k]).pixel_id by {
        if i < np - 1 && k < np - 1 {
            assert(pre.pixels@[i] == post.pixels@[i]);
            assert(pre.pixels@[k] == post.pixels@[k]);
        } else if i == np - 1 {
            if post.pixels@[k].pixel_id == pixel_id {
                assert(pre.has_pixel(pixel_id));
            }
        } else {
            if post.pixels@[i].pixel_id == pixel_id {
                assert(pre.has_pixel(pixel_id));
            }
        }
    }
    assert forall|j: int, k: int|
        0 <= j < no && 0 <= k < no && j != k implies (#[trigger] post.owner_indexes@[j]).owner != (
    #[trigger] post.owner_indexes@[k]).owner by {
        if j < no - 1 && k < no - 1 {
            assert(pre.owner_indexes@[j] == post.owner_indexes@[j]);
            assert(pre.owner_indexes@[k] == post.owner_indexes@[k]);
        } else if j == no - 1 {
            if post.owner_indexes@[k].owner == caller {
                assert(pre.has_owner(caller));
            }
        } else {
            if post.owner_indexes@[j].owner == caller {
                assert(pre.has_owner(caller));
            }
        }
    }
    assert forall|i: int| 0 <= i < np implies #[trigger] post.pixel_has_index(i) by {
        if i < np - 1 {
            assert(pre.pixel_has_index(i));
            let j = choose|j: int|
                0 <= j < pre.owner_indexes@.len() && paired(
                    pre.pixels@[i],
                    #[trigger] pre.owner_indexes@[j],
                );
            assert(post.owner_indexes@[j] == pre.owner_indexes@[j]);
            assert(paired(post.pixels@[i], post.owner_indexes@[j]));
        } else {
            assert(paired(post.pixels@[i], post.owner_indexes@[no - 1]));
        }
    }
    assert forall|j: int| 0 <= j < no implies #[trigger] post.index_has_pixel(j) by {
        if j < no - 1 {
            assert(pre.index_has_pixel(j));
            let i = choose|i: int|
                0 <= i < pre.pixels@.len() && paired(
                    #[trigger] pre.pixels@[i],
                    pre.owner_indexes@[j],
                );
            assert(post.pixels@[i] == pre.pixels@[i]);
            assert(paired(post.pixels@[i], post.owner_indexes@[j]));
        } else {
            assert(paired(post.pixels@[np - 1], post.owner_indexes@[j]));
        }
    }
}

/// A license update — one pixel record rewritten in place with its owner,
/// cell and claim timestamp kept — preserves the registry invariant.
proof fn lemma_license_update_preserves_inv(pre: PixelRegistry, post: PixelRegistry, i: int)
    requires
        pre.inv(),
        0 <= i < pre.pixels@.len(),
        post.board == pre.board,
        post.owner_indexes@ == pre.owner_indexes@,
        post.pixels@ == pre.pixels@.update(i, post.pixels@[i]),
        post.pixels@[i].pixel_id == pre.pixels@[i].pixel_id,
        post.pixels@[i].owner == pre.pixels@[i].owner,
        post.pixels@[i].board == pre.pixels@[i].board,
        metadata_fits(post.pixels@[i].metadata_uri@),
    ensures
        post.inv(),
{
    let np = post.pixels@.len() as int;
    let no = post.owner_indexes@.len() as int;
    assert forall|k: int| 0 <= k < np implies #[trigger] post.pixel_wf(k) by {
        assert(pre.pixel_wf(k));
        if k != i {
            assert(post.pixels@[k] == pre.pixels@[k]);
        }
    }
    assert forall|j: int| 0 <= j < no implies #[trigger] post.index_wf(j) by {
        assert(pre.index_wf(j));
    }
    assert forall|k: int, m: int|
        0 <= k < np && 0 <= m < np && k != m implies (#[trigger] post.pixels@[k]).pixel_id != (
    #[trigger] post.pixels@[m]).pixel_id by {
        assert(post.pixels@[k].pixel_id == pre.pixels@[k].pixel_id);
        assert(post.pixels@[m].pixel_id == pre.pixels@[m].pixel_id);
    }
    assert forall|k: int| 0 <= k < np implies #[trigger] post.pixel_has_index(k) by {
        assert(pre.pixel_has_index(k));
        let j = choose|j: int|
            0 <= j < pre.owner_indexes@.len() && paired(
                pre.pixels@[k],
                #[trigger] pre.owner_indexes@[j],
            );
        assert(paired(post.pixels@[k], post.owner_indexes@[j]));
    }
    assert forall|j: int| 0 <= j < no implies #[trigger] post.index_has_pixel(j) by {
        assert(pre.index_has_pixel(j));
        let k = choose|k: int|
            0 <= k < pre.pixels@.len() && paired(#[trigger] pre.pixels@[k], pre.owner_indexes@[j]);
        assert(paired(post.pixels@[k], post.owner_indexes@[j]));
    }
}

} // verus!
