//! The icon cache: decoded pixel buffers for each (power-mode code, theme
//! bucket) pair.
//!
//! Eight embedded assets — four mode codes times two buckets — are decoded
//! once at startup. Decoding any of them can fail, and a single failure makes
//! the whole load fail: the program cannot run without its visual assets.
//! After a successful load the cache is never mutated; lookups are pure
//! reads.

use vstd::prelude::*;

use crate::theme::Bucket;

verus! {

/// The mode codes the cache holds icons for.
pub open spec fn is_known_code(code: i32) -> bool {
    code == 0 || code == 1 || code == 2 || code == 4
}

/// Whether a mode code has a cached icon.
pub fn known_code(code: i32) -> (r: bool)
    ensures
        r == is_known_code(code),
{
    code == 0 || code == 1 || code == 2 || code == 4
}

/// A decoded icon: an RGBA pixel buffer with its dimensions.
#[derive(Clone, Debug)]
pub struct RgbaIcon {
    pub rgba: Vec<u8>,
    pub width: u32,
    pub height: u32,
}

/// The mathematical content of a decoded icon.
pub struct RgbaData {
    pub rgba: Seq<u8>,
    pub width: nat,
    pub height: nat,
}

impl View for RgbaIcon {
    type V = RgbaData;

    open spec fn view(&self) -> RgbaData {
        RgbaData { rgba: self.rgba@, width: self.width as nat, height: self.height as nat }
    }
}

impl RgbaIcon {
    /// An RGBA buffer holds exactly four bytes per pixel.
    pub open spec fn wf(self) -> bool {
        self.rgba@.len() == 4 * self.width * self.height
    }
}

/// What the image decoder yields on given bytes: `None` where the bytes are
/// not a decodable image, otherwise the RGBA pixels. Decoding is a function
/// of the bytes alone.
pub uninterp spec fn decoded_image(bytes: Seq<u8>) -> Option<RgbaData>;

/// Relies on image::load_from_memory and DynamicImage::into_rgba8: decoding
/// is deterministic in the input bytes, an undecodable input gives an error,
/// and the RGBA buffer that comes back holds exactly four bytes per pixel of
/// the reported dimensions.
#[verifier::external_body]
fn decode_icon(bytes: &[u8]) -> (r: Option<RgbaIcon>)
    ensures
        match r {
            Some(icon) => decoded_image(bytes@) == Some(icon@) && icon.wf(),
            None => decoded_image(bytes@) is None,
        },
{
    match image::load_from_memory(bytes) {
        Ok(img) => {
            let buf = img.into_rgba8();
            let (width, height) = buf.dimensions();
            Some(RgbaIcon { rgba: buf.into_raw(), width, height })
        },
        Err(_) => None,
    }
}

/// One bucket's icons: an entry for each known mode code.
pub struct IconSet {
    pub unknown: RgbaIcon,
    pub saver: RgbaIcon,
    pub balanced: RgbaIcon,
    pub best: RgbaIcon,
}

impl IconSet {
    /// The set as a mapping from mode code to pixel data.
    pub open spec fn as_map(self) -> Map<int, RgbaData> {
        map![0int => self.unknown@, 1int => self.saver@, 2int => self.balanced@, 4int => self.best@]
    }

    /// Every icon in the set is a well-formed pixel buffer.
    pub open spec fn wf(self) -> bool {
        self.unknown.wf() && self.saver.wf() && self.balanced.wf() && self.best.wf()
    }

    /// Decode one bucket's four assets; any failure fails the load.
    pub fn load(
        unknown: &[u8],
        saver: &[u8],
        balanced: &[u8],
        best: &[u8],
    ) -> (r: Option<IconSet>)
        ensures
            match r {
                Some(s) => {
                    &&& s.wf()
                    &&& decoded_image(unknown@) == Some(s.unknown@)
                    &&& decoded_image(saver@) == Some(s.saver@)
                    &&& decoded_image(balanced@) == Some(s.balanced@)
                    &&& decoded_image(best@) == Some(s.best@)
                },
                None => {
                    ||| decoded_image(unknown@) is None
                    ||| decoded_image(saver@) is None
                    ||| decoded_image(balanced@) is None
                    ||| decoded_image(best@) is None
                },
            },
    {
        let unknown = decode_icon(unknown);
        let saver = decode_icon(saver);
        let balanced = decode_icon(balanced);
        let best = decode_icon(best);
        match (unknown, saver, balanced, best) {
            (Some(unknown), Some(saver), Some(balanced), Some(best)) => Some(
                IconSet { unknown, saver, balanced, best },
            ),
            _ => None,
        }
    }

    /// Look an icon up by mode code; codes outside the known set have no
    /// entry.
    pub fn get(&self, code: i32) -> (r: Option<&RgbaIcon>)
        ensures
            match r {
                Some(icon) => is_known_code(code) && self.as_map()[code as int] == icon@,
                None => !is_known_code(code),
            },
    {
        if code == 0 {
            Some(&self.unknown)
        } else if code == 1 {
            Some(&self.saver)
        } else if code == 2 {
            Some(&self.balanced)
        } else if code == 4 {
            Some(&self.best)
        } else {
            None
        }
    }
}

/// A mode code has an entry in a bucket's mapping exactly when it is one of
/// the four known codes, so each bucket maps exactly four codes.
pub proof fn lemma_icon_set_domain(s: IconSet)
    ensures
        s.as_map().dom() =~= set![0int, 1int, 2int, 4int],
        s.as_map().len() == 4,
{
}

/// Both buckets' icons, loaded once at startup.
pub struct IconCache {
    pub black: IconSet,
    pub white: IconSet,
}

/// The raw bytes of the eight embedded assets, one per (code, bucket) pair.
pub struct IconAssets {
    pub unknown_black: Vec<u8>,
    pub saver_black: Vec<u8>,
    pub balanced_black: Vec<u8>,
    pub best_black: Vec<u8>,
    pub unknown_white: Vec<u8>,
    pub saver_white: Vec<u8>,
    pub balanced_white: Vec<u8>,
    pub best_white: Vec<u8>,
}

impl IconAssets {
    /// All eight assets decode.
    pub open spec fn all_decodable(self) -> bool {
        &&& decoded_image(self.unknown_black@) is Some
        &&& decoded_image(self.saver_black@) is Some
        &&& decoded_image(self.balanced_black@) is Some
        &&& decoded_image(self.best_black@) is Some
        &&& decoded_image(self.unknown_white@) is Some
        &&& decoded_image(self.saver_white@) is Some
        &&& decoded_image(self.balanced_white@) is Some
        &&& decoded_image(self.best_white@) is Some
    }
}

impl IconCache {
    pub open spec fn wf(self) -> bool {
        self.black.wf() && self.white.wf()
    }

    /// The mapping for one bucket.
    pub open spec fn bucket_map(self, b: Bucket) -> Map<int, RgbaData> {
        match b {
            Bucket::Black => self.black.as_map(),
            Bucket::White => self.white.as_map(),
        }
    }

    /// Decode all eight assets into the two bucket mappings. The load
    /// succeeds exactly when every asset decodes, and then each entry is the
    /// decode of its asset.
    pub fn load(assets: &IconAssets) -> (r: Option<IconCache>)
        ensures
            r is Some <==> assets.all_decodable(),
            match r {
                Some(cache) => {
                    &&& cache.wf()
                    &&& decoded_image(assets.unknown_black@) == Some(cache.black.unknown@)
                    &&& decoded_image(assets.saver_black@) == Some(cache.black.saver@)
                    &&& decoded_image(assets.balanced_black@) == Some(cache.black.balanced@)
                    &&& decoded_image(assets.best_black@) == Some(cache.black.best@)
                    &&& decoded_image(assets.unknown_white@) == Some(cache.white.unknown@)
                    &&& decoded_image(assets.saver_white@) == Some(cache.white.saver@)
                    &&& decoded_image(assets.balanced_white@) == Some(cache.white.balanced@)
                    &&& decoded_image(assets.best_white@) == Some(cache.white.best@)
                },
                None => true,
            },
    {
        let black = IconSet::load(
            assets.unknown_black.as_slice(),
            assets.saver_black.as_slice(),
            assets.balanced_black.as_slice(),
            assets.best_black.as_slice(),
        );
        let white = IconSet::load(
            assets.unknown_white.as_slice(),
            assets.saver_white.as_slice(),
            assets.balanced_white.as_slice(),
            assets.best_white.as_slice(),
        );
        match (black, white) {
            (Some(black), Some(white)) => Some(IconCache { black, white }),
            _ => None,
        }
    }

    /// Look up the icon for a bucket and mode code.
    pub fn select(&self, bucket: Bucket, code: i32) -> (r: Option<&RgbaIcon>)
        ensures
            match r {
                Some(icon) => is_known_code(code) && self.bucket_map(bucket)[code as int]
                    == icon@,
                None => !is_known_code(code),
            },
    {
        match bucket {
            Bucket::Black => self.black.get(code),
            Bucket::White => self.white.get(code),
        }
    }
}

} // verus!
