//! The three request handlers, each over the records the host chain loaded
//! (or freshly created, zeroed) for the request. The host performs the
//! storage, addressing and signature work around them; every handler here is
//! a pure decision on plain values, all-or-nothing: on any rejection the
//! records are left untouched.

use vstd::prelude::*;

use crate::identity::{admin_identity, admin_spec, Identity};
use crate::records::{
    claimed_pixel, license_updated, metadata_fits, pixel_id_in_range, Board, OwnerIndex, Pixel,
    PixelError, MAX_METADATA_URI_LEN,
};

verus! {

/// A request to initialize the board: the signer, and the board slot the
/// host just created (zeroed) at the board's derived address.
pub struct InitializeBoard {
    /// The signing identity.
    pub authority: Identity,
    /// The freshly created board record the handler fills in.
    pub board: Board,
    /// Derivation nonce the host found for the board address.
    pub board_bump: u8,
}

/// A request to claim a pixel: the signer, the board, and the two records
/// addressed by the request — each either loaded, or freshly created
/// (zeroed, so with the null identity as owner) by the host.
pub struct ClaimPixel {
    /// The signing wallet: it receives the pixel and pays for new records.
    pub owner: Identity,
    /// The board singleton, loaded by the host.
    pub board: Board,
    /// The address the board is stored under; the pixel keeps it as a
    /// back-reference.
    pub board_address: Identity,
    /// The pixel record at the address derived from `pixel_id`.
    pub pixel: Pixel,
    /// Derivation nonce the host found for the pixel address.
    pub pixel_bump: u8,
    /// The owner-index record at the address derived from the signer.
    pub owner_index: OwnerIndex,
    /// Derivation nonce the host found for the owner-index address.
    pub owner_index_bump: u8,
}

/// A request to update a pixel's license: the signer and the addressed
/// pixel record, loaded by the host.
pub struct SetPixelLicense {
    /// The signing wallet.
    pub owner: Identity,
    /// The addressed pixel record.
    pub pixel: Pixel,
}

/// Creates the board: records the caller as authority and the requested grid
/// capacity. Only the fixed admin identity may do this; `total_pixels` is
/// taken as-is, with no numeric validation. That the board is created at
/// most once is the host's guarantee (the storage slot already exists on a
/// second call), not a check made here.
pub fn initialize_board(ctx: &mut InitializeBoard, total_pixels: u16) -> (r: Result<
    (),
    PixelError,
>)
    ensures
        r is Ok <==> old(ctx).authority == admin_spec(),
        r is Err ==> r == Err::<(), PixelError>(PixelError::UnauthorizedInitializer) && *final(ctx)
            == *old(ctx),
        r is Ok ==> final(ctx).board == (Board {
            authority: old(ctx).authority,
            total_pixels,
            bump: old(ctx).board_bump,
        }) && final(ctx).authority == old(ctx).authority && final(ctx).board_bump == old(ctx).board_bump,
{
    let admin = admin_identity();
    if !(ctx.authority == admin) {
        return Err(PixelError::UnauthorizedInitializer);
    }
    ctx.board.authority = ctx.authority;
    ctx.board.total_pixels = total_pixels;
    ctx.board.bump = ctx.board_bump;
    Ok(())
}

/// Claims a pixel for the signer: after validating the id against the board,
/// the metadata length, and that neither the pixel nor the signer's index
/// slot is taken, writes every pixel field and binds the signer to the pixel
/// in the owner index. `now` is the platform clock the claim is stamped
/// with. The checks come in a fixed order, so each input fails with exactly
/// one rejection.
pub fn claim_pixel(
    ctx: &mut ClaimPixel,
    pixel_id: u16,
    price_lamports: u64,
    lease_expires_at: i64,
    metadata_uri: Vec<u8>,
    now: i64,
) -> (r: Result<(), PixelError>)
    requires
        // the host only accepts signed requests, and no wallet signs with the
        // null identity
        !old(ctx).owner.is_unset(),
    ensures
        r is Err ==> *final(ctx) == *old(ctx),
        (r == Err::<(), PixelError>(PixelError::InvalidPixelId)) <==> !pixel_id_in_range(
            pixel_id,
            old(ctx).board.total_pixels,
        ),
        (r == Err::<(), PixelError>(PixelError::MetadataTooLong)) <==> (pixel_id_in_range(
            pixel_id,
            old(ctx).board.total_pixels,
        ) && !metadata_fits(metadata_uri@)),
        (r == Err::<(), PixelError>(PixelError::AlreadyClaimed)) <==> (pixel_id_in_range(
            pixel_id,
            old(ctx).board.total_pixels,
        ) && metadata_fits(metadata_uri@) && !old(ctx).pixel.owner.is_unset()),
        (r == Err::<(), PixelError>(PixelError::AlreadyOwnsPixel)) <==> (pixel_id_in_range(
            pixel_id,
            old(ctx).board.total_pixels,
        ) && metadata_fits(metadata_uri@) && old(ctx).pixel.owner.is_unset() && !old(ctx).owner_index.owner.is_unset()),
        r is Ok <==> (pixel_id_in_range(pixel_id, old(ctx).board.total_pixels) && metadata_fits(
            metadata_uri@,
        ) && old(ctx).pixel.owner.is_unset() && old(ctx).owner_index.owner.is_unset()),
        r is Ok ==> claimed_pixel(
            final(ctx).pixel,
            old(ctx).board_address,
            pixel_id,
            old(ctx).owner,
            price_lamports,
            lease_expires_at,
            metadata_uri@,
            now,
            old(ctx).pixel_bump,
        ) && final(ctx).owner_index == (OwnerIndex {
            owner: old(ctx).owner,
            pixel_id,
            bump: old(ctx).owner_index_bump,
        }) && final(ctx).owner == old(ctx).owner && final(ctx).board == old(ctx).board && final(ctx).board_address == old(ctx).board_address && final(ctx).pixel_bump == old(ctx).pixel_bump
            && final(ctx).owner_index_bump == old(ctx).owner_index_bump,
{
    if !(pixel_id > 0 && pixel_id <= ctx.board.total_pixels) {
        return Err(PixelError::InvalidPixelId);
    }
    if metadata_uri.len() > MAX_METADATA_URI_LEN {
        return Err(PixelError::MetadataTooLong);
    }
    if !ctx.pixel.owner.is_null() {
        return Err(PixelError::AlreadyClaimed);
    }
    if !ctx.owner_index.owner.is_null() {
        return Err(PixelError::AlreadyOwnsPixel);
    }
    ctx.pixel.board = ctx.board_address;
    ctx.pixel.pixel_id = pixel_id;
    ctx.pixel.owner = ctx.owner;
    ctx.pixel.price_lamports = price_lamports;
    ctx.pixel.lease_expires_at = lease_expires_at;
    ctx.pixel.metadata_uri = metadata_uri;
    ctx.pixel.claimed_at = now;
    ctx.pixel.bump = ctx.pixel_bump;
    ctx.owner_index.owner = ctx.owner;
    ctx.owner_index.pixel_id = pixel_id;
    ctx.owner_index.bump = ctx.owner_index_bump;
    Ok(())
}

/// Overwrites the license fields (price, lease expiry, metadata URI) of an
/// already-claimed pixel. Only the current owner may do so — the host
/// establishes the owner relation before the handler body runs, so that
/// check comes first — and the new metadata must fit. The owner and the
/// claim timestamp are left untouched; no validation relates the lease
/// expiry to the clock, or the price to anything.
pub fn set_pixel_license(
    ctx: &mut SetPixelLicense,
    price_lamports: u64,
    lease_expires_at: i64,
    metadata_uri: Vec<u8>,
) -> (r: Result<(), PixelError>)
    ensures
        r is Err ==> *final(ctx) == *old(ctx),
        (r == Err::<(), PixelError>(PixelError::NotOwner)) <==> old(ctx).pixel.owner != old(ctx).owner,
        (r == Err::<(), PixelError>(PixelError::MetadataTooLong)) <==> (old(ctx).pixel.owner
            == old(ctx).owner && !metadata_fits(metadata_uri@)),
        r is Ok <==> (old(ctx).pixel.owner == old(ctx).owner && metadata_fits(metadata_uri@)),
        r is Ok ==> license_updated(
            old(ctx).pixel,
            final(ctx).pixel,
            price_lamports,
            lease_expires_at,
            metadata_uri@,
        ) && final(ctx).owner == old(ctx).owner,
{
    if !(ctx.pixel.owner == ctx.owner) {
        return Err(PixelError::NotOwner);
    }
    if metadata_uri.len() > MAX_METADATA_URI_LEN {
        return Err(PixelError::MetadataTooLong);
    }
    ctx.pixel.price_lamports = price_lamports;
    ctx.pixel.lease_expires_at = lease_expires_at;
    ctx.pixel.metadata_uri = metadata_uri;
    Ok(())
}

} // verus!
