//! Which embedded file answers a request for a path of the viewer's
//! single-page application.

use vstd::prelude::*;
use vstd::string::*;

verus! {

/// The page that stands for the application itself.
pub const INDEX_PAGE: &'static str = "index.html";

/// The content type of the index page.
pub const INDEX_CONTENT_TYPE: &'static str = "text/html";

/// The byte of a slash.
pub const SLASH: u8 = 0x2f;

/// The byte of a full stop.
pub const DOT: u8 = 0x2e;

/// How to answer a request for an asset.
#[derive(Clone, Copy, Debug, PartialEq, Eq, Structural)]
pub enum AssetChoice {
    /// Serve the file at the asked path, with the content type its name
    /// suggests.
    File,
    /// Serve the index page in its place: the path names a view of the
    /// application, not a file.
    Index,
    /// Answer that nothing is there.
    NotFound,
}

/// How many bytes at the start of `bytes` are equal to `byte`.
pub open spec fn leading(bytes: Seq<u8>, byte: u8) -> nat
    decreases bytes.len(),
{
    if bytes.len() > 0 && bytes[0] == byte {
        1 + leading(bytes.drop_first(), byte)
    } else {
        0
    }
}

/// A run of `n` bytes equal to `byte`, followed by another byte or by
/// nothing, is what `leading` counts.
pub proof fn lemma_leading_is(bytes: Seq<u8>, byte: u8, n: nat)
    requires
        n <= bytes.len(),
        forall|i: int| 0 <= i < n ==> bytes[i] == byte,
        n < bytes.len() ==> bytes[n as int] != byte,
    ensures
        leading(bytes, byte) == n,
    decreases n,
{
    if n > 0 {
        let rest = bytes.drop_first();
        assert forall|i: int| 0 <= i < n - 1 implies rest[i] == byte by {
            assert(rest[i] == bytes[i + 1]);
        }
        if n < bytes.len() {
            assert(rest[n - 1] == bytes[n as int]);
        }
        lemma_leading_is(rest, byte, (n - 1) as nat);
    }
}

/// Where the asset path begins in the path of a request: behind its leading
/// slashes.
pub fn leading_slashes(path: &str) -> (count: usize)
    ensures
        count == leading(path.spec_bytes(), SLASH),
        count <= path.spec_bytes().len(),
{
    let bytes = path.as_bytes();
    let mut count: usize = 0;
    while count < bytes.len() && bytes[count] == SLASH
        invariant
            count <= bytes@.len(),
            bytes@ == path.spec_bytes(),
            forall|i: int| 0 <= i < count ==> bytes@[i] == SLASH,
        decreases bytes@.len() - count,
    {
        count += 1;
    }
    proof {
        lemma_leading_is(bytes@, SLASH, count as nat);
    }
    count
}

/// Whether a path looks like the name of a file: it holds a full stop.
pub fn names_a_file(path: &str) -> (dotted: bool)
    ensures
        dotted == path.spec_bytes().contains(DOT),
{
    let bytes = path.as_bytes();
    let mut i: usize = 0;
    while i < bytes.len()
        invariant
            i <= bytes@.len(),
            bytes@ == path.spec_bytes(),
            forall|j: int| 0 <= j < i ==> bytes@[j] != DOT,
        decreases bytes@.len() - i,
    {
        if bytes[i] == DOT {
            return true;
        }
        i += 1;
    }
    false
}

/// The file to look up for an asset path: the path itself, or the index page
/// for the empty path.
pub fn asset_name(asset_path: &str) -> (name: &str)
    ensures
        name@ == if asset_path@.len() == 0 {
            INDEX_PAGE@
        } else {
            asset_path@
        },
{
    if asset_path.is_empty() {
        INDEX_PAGE
    } else {
        asset_path
    }
}

/// How a request is to be answered, given whether the asked file exists,
/// whether its path looks like the name of a file, and whether the index page
/// exists.
pub open spec fn asset_choice(found: bool, dotted: bool, index_found: bool) -> AssetChoice {
    if found {
        AssetChoice::File
    } else if !dotted && index_found {
        AssetChoice::Index
    } else {
        AssetChoice::NotFound
    }
}

/// Decides how to answer a request for an asset.
pub fn choose_asset(found: bool, dotted: bool, index_found: bool) -> (choice: AssetChoice)
    ensures
        choice == asset_choice(found, dotted, index_found),
{
    if found {
        AssetChoice::File
    } else if !dotted && index_found {
        AssetChoice::Index
    } else {
        AssetChoice::NotFound
    }
}

} // verus!
