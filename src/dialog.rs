//! What the save dialog asks the user.
use vstd::prelude::*;

verus! {

/// The settings of the save dialog: a title and one named extension filter.
pub struct SaveDialogConfig {
    pub title: &'static str,
    pub filter_name: &'static str,
    pub extensions: Vec<&'static str>,
}

/// The image extensions that the filter offers.
pub open spec fn image_extensions() -> Seq<Seq<char>> {
    seq!["png"@, "jpg"@, "jpeg"@, "webp"@, "gif"@, "bmp"@, "svg"@]
}

/// The extensions of a configuration, as character sequences.
pub open spec fn extensions_of(c: SaveDialogConfig) -> Seq<Seq<char>> {
    c.extensions@.map_values(|e: &'static str| e@)
}

/// The dialog shown to choose where an image is saved: titled
/// "Save image as", with one filter "Images" over the image extensions.
pub fn save_dialog_config() -> (r: SaveDialogConfig)
    ensures
        r.title@ == "Save image as"@,
        r.filter_name@ == "Images"@,
        extensions_of(r) == image_extensions(),
{
    let extensions = vec!["png", "jpg", "jpeg", "webp", "gif", "bmp", "svg"];
    let r = SaveDialogConfig { title: "Save image as", filter_name: "Images", extensions };
    assert(extensions_of(r) =~= image_extensions());
    r
}

} // verus!
