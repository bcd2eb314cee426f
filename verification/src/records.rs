//! The three record types the registry keeps on chain, the rejection kinds,
//! and the spec functions that the handler and store contracts share.

use vstd::prelude::*;

use crate::identity::Identity;

verus! {

/// Largest metadata URI a pixel may carry, in bytes.
pub const MAX_METADATA_URI_LEN: usize = 256;

/// The board singleton: the identity that administers the grid and how many
/// pixels it has. Written once, never mutated afterwards.
#[derive(Clone, Copy, PartialEq, Eq, Structural, Debug)]
pub struct Board {
    /// The identity that initialized the board.
    pub authority: Identity,
    /// Grid capacity: valid pixel ids are 1 through this value.
    pub total_pixels: u16,
    /// Address-derivation nonce assigned by the host chain.
    pub bump: u8,
}

/// One grid cell. Created on first claim; afterwards only its license fields
/// (price, lease expiry, metadata URI) may change, and only at the owner's
/// request. Never destroyed.
#[derive(Debug)]
pub struct Pixel {
    /// Address of the board this pixel belongs to.
    pub board: Identity,
    /// This cell's id, between 1 and the board's `total_pixels`.
    pub pixel_id: u16,
    /// The claiming wallet; the null identity means unclaimed.
    pub owner: Identity,
    /// Asking price, in lamports.
    pub price_lamports: u64,
    /// Lease expiry timestamp. Recorded but never acted on: no operation
    /// expires a lease or reclaims a pixel.
    pub lease_expires_at: i64,
    /// Metadata pointer, at most [`MAX_METADATA_URI_LEN`] bytes.
    pub metadata_uri: Vec<u8>,
    /// Platform clock at the moment of the claim.
    pub claimed_at: i64,
    /// Address-derivation nonce assigned by the host chain.
    pub bump: u8,
}

/// One record per identity that has ever claimed a pixel. Its mere presence
/// (a set owner) is what enforces one pixel per wallet; it is never updated
/// or destroyed.
#[derive(Clone, Copy, PartialEq, Eq, Structural, Debug)]
pub struct OwnerIndex {
    /// The claiming wallet; the null identity means the slot is unused.
    pub owner: Identity,
    /// The pixel this wallet claimed.
    pub pixel_id: u16,
    /// Address-derivation nonce assigned by the host chain.
    pub bump: u8,
}

/// The rejection kinds a handler can return. Every violated precondition
/// aborts the whole request with exactly one of these.
#[derive(Clone, Copy, PartialEq, Eq, Structural, Debug)]
pub enum PixelError {
    /// The claimed pixel id lies outside `[1, total_pixels]`.
    InvalidPixelId,
    /// The addressed pixel already has an owner.
    AlreadyClaimed,
    /// The calling wallet already claimed a pixel.
    AlreadyOwnsPixel,
    /// Only the owner may update a pixel's license.
    NotOwner,
    /// The metadata URI is longer than [`MAX_METADATA_URI_LEN`] bytes.
    MetadataTooLong,
    /// Only the fixed admin identity may initialize the board.
    UnauthorizedInitializer,
}

/// What a request against the account store can fail with: a handler
/// rejection, or a failure of the store itself (the host chain refuses to
/// create an account that exists, and cannot load one that does not).
#[derive(Clone, Copy, PartialEq, Eq, Structural, Debug)]
pub enum RegistryError {
    /// A handler precondition was violated.
    Rejected(PixelError),
    /// The board's storage slot already exists; it is created exactly once.
    BoardAlreadyExists,
    /// The board was never initialized, so the request has no board to load.
    BoardMissing,
    /// The addressed pixel record does not exist.
    PixelMissing,
}

/// Whether `pixel_id` addresses a cell of a board with `total_pixels` cells.
pub open spec fn pixel_id_in_range(pixel_id: u16, total_pixels: u16) -> bool {
    1 <= pixel_id && pixel_id <= total_pixels
}

/// Whether a metadata URI of `len` bytes is acceptable.
pub open spec fn metadata_fits(uri: Seq<u8>) -> bool {
    uri.len() <= MAX_METADATA_URI_LEN
}

/// `p` is exactly the record a fresh claim writes: every field set from the
/// request, the claim stamped with the platform clock.
pub open spec fn claimed_pixel(
    p: Pixel,
    board: Identity,
    pixel_id: u16,
    owner: Identity,
    price_lamports: u64,
    lease_expires_at: i64,
    metadata_uri: Seq<u8>,
    claimed_at: i64,
    bump: u8,
) -> bool {
    &&& p.board == board
    &&& p.pixel_id == pixel_id
    &&& p.owner == owner
    &&& p.price_lamports == price_lamports
    &&& p.lease_expires_at == lease_expires_at
    &&& p.metadata_uri@ == metadata_uri
    &&& p.claimed_at == claimed_at
    &&& p.bump == bump
}

/// `q` is `p` with only the license fields (price, lease expiry, metadata
/// URI) replaced; in particular the owner and the claim timestamp are kept.
pub open spec fn license_updated(
    p: Pixel,
    q: Pixel,
    price_lamports: u64,
    lease_expires_at: i64,
    metadata_uri: Seq<u8>,
) -> bool {
    &&& q.price_lamports == price_lamports
    &&& q.lease_expires_at == lease_expires_at
    &&& q.metadata_uri@ == metadata_uri
    &&& q.board == p.board
    &&& q.pixel_id == p.pixel_id
    &&& q.owner == p.owner
    &&& q.claimed_at == p.claimed_at
    &&& q.bump == p.bump
}

} // verus!
