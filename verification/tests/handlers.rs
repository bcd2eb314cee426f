use arcium_pixels::handlers::{
    claim_pixel, initialize_board, set_pixel_license, ClaimPixel, InitializeBoard, SetPixelLicense,
};
use arcium_pixels::identity::{admin_identity, Identity};
use arcium_pixels::records::{Board, OwnerIndex, Pixel, PixelError};

const NOW: i64 = 1_700_000_000;
const DAY: i64 = 86_400;

fn wallet(n: u64) -> Identity {
    Identity::from_words(n, 0, 0, 0)
}

fn empty_board() -> Board {
    Board { authority: Identity::unset(), total_pixels: 0, bump: 0 }
}

fn empty_pixel() -> Pixel {
    Pixel {
        board: Identity::unset(),
        pixel_id: 0,
        owner: Identity::unset(),
        price_lamports: 0,
        lease_expires_at: 0,
        metadata_uri: Vec::new(),
        claimed_at: 0,
        bump: 0,
    }
}

fn empty_index() -> OwnerIndex {
    OwnerIndex { owner: Identity::unset(), pixel_id: 0, bump: 0 }
}

/// A claim request against a fresh board of 100 pixels, with both addressed
/// records newly created (zeroed) by the host.
fn fresh_claim_ctx(owner: Identity) -> ClaimPixel {
    ClaimPixel {
        owner,
        board: Board { authority: admin_identity(), total_pixels: 100, bump: 254 },
        board_address: Identity::from_words(0, 0, 0, 7),
        pixel: empty_pixel(),
        pixel_bump: 253,
        owner_index: empty_index(),
        owner_index_bump: 252,
    }
}

#[test]
fn initialize_board_rejects_non_admin() {
    let mut ctx = InitializeBoard { authority: wallet(9), board: empty_board(), board_bump: 254 };
    let r = initialize_board(&mut ctx, 100);
    assert_eq!(r, Err(PixelError::UnauthorizedInitializer));
    assert_eq!(ctx.board.total_pixels, 0);
    assert_eq!(ctx.board.authority, Identity::unset());
}

#[test]
fn initialize_board_writes_record() {
    let mut ctx =
        InitializeBoard { authority: admin_identity(), board: empty_board(), board_bump: 254 };
    let r = initialize_board(&mut ctx, 100);
    assert_eq!(r, Ok(()));
    assert_eq!(ctx.board.authority, admin_identity());
    assert_eq!(ctx.board.total_pixels, 100);
    assert_eq!(ctx.board.bump, 254);
}

#[test]
fn claim_writes_both_records() {
    let w1 = wallet(1);
    let mut ctx = fresh_claim_ctx(w1);
    let r = claim_pixel(&mut ctx, 5, 1000, NOW + DAY, b"ipfs://abc".to_vec(), NOW);
    assert_eq!(r, Ok(()));
    assert_eq!(ctx.pixel.board, ctx.board_address);
    assert_eq!(ctx.pixel.pixel_id, 5);
    assert_eq!(ctx.pixel.owner, w1);
    assert_eq!(ctx.pixel.price_lamports, 1000);
    assert_eq!(ctx.pixel.lease_expires_at, NOW + DAY);
    assert_eq!(ctx.pixel.metadata_uri, b"ipfs://abc".to_vec());
    assert_eq!(ctx.pixel.claimed_at, NOW);
    assert_eq!(ctx.pixel.bump, 253);
    assert_eq!(ctx.owner_index.owner, w1);
    assert_eq!(ctx.owner_index.pixel_id, 5);
    assert_eq!(ctx.owner_index.bump, 252);
}

#[test]
fn claim_checks_range_before_metadata() {
    let mut ctx = fresh_claim_ctx(wallet(1));
    let r = claim_pixel(&mut ctx, 101, 1000, NOW + DAY, [b'a'; 257].to_vec(), NOW);
    assert_eq!(r, Err(PixelError::InvalidPixelId));
    let r = claim_pixel(&mut ctx, 0, 1000, NOW + DAY, b"ipfs://abc".to_vec(), NOW);
    assert_eq!(r, Err(PixelError::InvalidPixelId));
    assert_eq!(ctx.pixel.owner, Identity::unset());
}

#[test]
fn claim_handler_metadata_length_boundary() {
    let mut ctx = fresh_claim_ctx(wallet(1));
    let r = claim_pixel(&mut ctx, 5, 1000, NOW + DAY, [b'a'; 257].to_vec(), NOW);
    assert_eq!(r, Err(PixelError::MetadataTooLong));
    let r = claim_pixel(&mut ctx, 5, 1000, NOW + DAY, [b'a'; 256].to_vec(), NOW);
    assert_eq!(r, Ok(()));
    assert_eq!(ctx.pixel.metadata_uri.len(), 256);
}

#[test]
fn claim_rejects_claimed_pixel_for_any_caller() {
    let w1 = wallet(1);
    let mut ctx = fresh_claim_ctx(w1);
    assert_eq!(claim_pixel(&mut ctx, 5, 1000, NOW + DAY, b"ipfs://abc".to_vec(), NOW), Ok(()));

    // another wallet, same pixel record
    let mut again = fresh_claim_ctx(wallet(2));
    again.pixel = ctx.pixel;
    let r = claim_pixel(&mut again, 5, 1000, NOW + DAY, b"ipfs://def".to_vec(), NOW);
    assert_eq!(r, Err(PixelError::AlreadyClaimed));

    // the original owner fares no better
    let mut owner_again = fresh_claim_ctx(w1);
    owner_again.pixel = again.pixel;
    owner_again.owner_index = again.owner_index;
    let r = claim_pixel(&mut owner_again, 5, 1000, NOW + DAY, b"ipfs://abc".to_vec(), NOW);
    assert_eq!(r, Err(PixelError::AlreadyClaimed));
}

#[test]
fn claim_rejects_wallet_with_index() {
    let w1 = wallet(1);
    let mut ctx = fresh_claim_ctx(w1);
    assert_eq!(claim_pixel(&mut ctx, 5, 1000, NOW + DAY, b"ipfs://abc".to_vec(), NOW), Ok(()));

    // same wallet, a different (fresh) pixel record, but its old index record
    let mut second = fresh_claim_ctx(w1);
    second.owner_index = ctx.owner_index;
    let r = claim_pixel(&mut second, 6, 1000, NOW + DAY, b"ipfs://def".to_vec(), NOW);
    assert_eq!(r, Err(PixelError::AlreadyOwnsPixel));
    assert_eq!(second.pixel.owner, Identity::unset());
}

#[test]
fn license_update_by_owner() {
    let w1 = wallet(1);
    let mut ctx = fresh_claim_ctx(w1);
    assert_eq!(claim_pixel(&mut ctx, 5, 1000, NOW + DAY, b"ipfs://abc".to_vec(), NOW), Ok(()));

    let mut lic = SetPixelLicense { owner: w1, pixel: ctx.pixel };
    let r = set_pixel_license(&mut lic, 2000, NOW + 2 * DAY, b"ipfs://new".to_vec());
    assert_eq!(r, Ok(()));
    assert_eq!(lic.pixel.price_lamports, 2000);
    assert_eq!(lic.pixel.lease_expires_at, NOW + 2 * DAY);
    assert_eq!(lic.pixel.metadata_uri, b"ipfs://new".to_vec());
    assert_eq!(lic.pixel.owner, w1);
    assert_eq!(lic.pixel.claimed_at, NOW);
    assert_eq!(lic.pixel.pixel_id, 5);
}

#[test]
fn license_update_by_non_owner_fails_before_length_check() {
    let w1 = wallet(1);
    let mut ctx = fresh_claim_ctx(w1);
    assert_eq!(claim_pixel(&mut ctx, 5, 1000, NOW + DAY, b"ipfs://abc".to_vec(), NOW), Ok(()));

    let mut lic = SetPixelLicense { owner: wallet(2), pixel: ctx.pixel };
    // both violated: the owner relation is established by the host before the
    // handler body, so it wins
    let r = set_pixel_license(&mut lic, 2000, NOW, [b'a'; 257].to_vec());
    assert_eq!(r, Err(PixelError::NotOwner));
    assert_eq!(lic.pixel.price_lamports, 1000);
}

#[test]
fn license_update_metadata_length_boundary() {
    let w1 = wallet(1);
    let mut ctx = fresh_claim_ctx(w1);
    assert_eq!(claim_pixel(&mut ctx, 5, 1000, NOW + DAY, b"ipfs://abc".to_vec(), NOW), Ok(()));

    let mut lic = SetPixelLicense { owner: w1, pixel: ctx.pixel };
    let r = set_pixel_license(&mut lic, 2000, NOW, [b'b'; 257].to_vec());
    assert_eq!(r, Err(PixelError::MetadataTooLong));
    assert_eq!(lic.pixel.metadata_uri, b"ipfs://abc".to_vec());
    let r = set_pixel_license(&mut lic, 2000, NOW, [b'b'; 256].to_vec());
    assert_eq!(r, Ok(()));
    assert_eq!(lic.pixel.metadata_uri.len(), 256);
}
