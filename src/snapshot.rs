use libremarkable::framebuffer::storage::CompressedCanvasState;
use vstd::prelude::*;

use crate::canvas::Rect;

verus! {

#[verifier::external_type_specification]
#[verifier::external_body]
pub struct ExCompressedCanvasState(CompressedCanvasState);

/// The compressed form of a region's raw pixels.
pub uninterp spec fn compressed_canvas(img: Seq<u8>, height: u32, width: u32) -> CompressedCanvasState;

/// Relies on libremarkable's `CompressedCanvasState::new`, which compresses
/// the raw pixels of a region with zstd: the result depends on the pixels and
/// the dimensions alone.
pub assume_specification[ CompressedCanvasState::new ](img: &[u8], height: u32, width: u32) -> (r:
    CompressedCanvasState)
    ensures
        r == compressed_canvas(img@, height, width),
;

/// A saved copy of one region of the screen.
pub struct Snapshot {
    pub canvas: CompressedCanvasState,
    pub height: u32,
    pub width: u32,
}

/// The one place a snapshot is kept; a new one replaces the old.
pub struct SnapshotSlot {
    pub saved: Option<Snapshot>,
}

/// The snapshot taken of `region` from its raw pixels `img`.
pub open spec fn snapshot_of(img: Seq<u8>, region: Rect) -> Snapshot {
    Snapshot {
        canvas: compressed_canvas(img, region.height, region.width),
        height: region.height,
        width: region.width,
    }
}

impl SnapshotSlot {
    pub fn new() -> (r: SnapshotSlot)
        ensures
            r.saved is None,
    {
        SnapshotSlot { saved: None }
    }

    /// Keeps the pixels read from `region` as the new snapshot. When reading
    /// the region failed, the snapshot held so far stays as it was. Returns
    /// whether a snapshot was taken.
    pub fn on_save_canvas(&mut self, dump: Result<Vec<u8>, &str>, region: Rect) -> (r: bool)
        ensures
            r == dump is Ok,
            dump matches Ok(img) ==> final(self).saved == Some(snapshot_of(img@, region)),
            dump is Err ==> final(self).saved == old(self).saved,
    {
        match dump {
            Ok(img) => {
                let canvas = CompressedCanvasState::new(img.as_slice(), region.height, region.width);
                self.saved = Some(Snapshot { canvas, height: region.height, width: region.width });
                true
            },
            Err(_) => false,
        }
    }
}

} // verus!
