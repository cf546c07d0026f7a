//! The icon cache: when an icon must be fetched, and under which name it
//! is stored.

use vstd::prelude::*;
use vstd::string::*;

verus! {

pub open spec fn icon_file_name_spec(icon: Seq<char>) -> Seq<char> {
    icon + ".png"@
}

pub open spec fn icon_url_spec(icon: Seq<char>) -> Seq<char> {
    "https://api.pushover.net/icons/"@ + icon + ".png"@
}

/// Name of the cache file that holds an icon.
pub fn icon_file_name(icon: &str) -> (r: String)
    ensures
        r@ == icon_file_name_spec(icon@),
{
    let mut r = String::from_str(icon);
    r.append(".png");
    r
}

/// Address from which an icon's bytes are fetched.
pub fn icon_url(icon: &str) -> (r: String)
    ensures
        r@ == icon_url_spec(icon@),
{
    let mut r = String::from_str("https://api.pushover.net/icons/");
    r.append(icon);
    r.append(".png");
    r
}

/// What resolving an icon takes.
#[derive(Debug)]
pub enum IconStep {
    /// The cache file exists: use it, with no network access.
    UseCached { file_name: String },
    /// Fetch the bytes from `url` and store them as `file_name`.
    Fetch { url: String, file_name: String },
}

/// Whether resolving an icon goes to the network: only where its cache
/// file is not on disk.
pub open spec fn needs_fetch(on_disk: bool) -> bool {
    !on_disk
}

/// How to resolve an icon, given whether its cache file exists on disk.
pub fn plan_icon(icon: &str, on_disk: bool) -> (r: IconStep)
    ensures
        !needs_fetch(on_disk) ==> (r matches IconStep::UseCached { file_name }
            && file_name@ == icon_file_name_spec(icon@)),
        needs_fetch(on_disk) ==> (r matches IconStep::Fetch { url, file_name }
            && url@ == icon_url_spec(icon@) && file_name@ == icon_file_name_spec(icon@)),
{
    if on_disk {
        IconStep::UseCached { file_name: icon_file_name(icon) }
    } else {
        IconStep::Fetch { url: icon_url(icon), file_name: icon_file_name(icon) }
    }
}

/// With the cache directory's files as `disk`: an icon whose file is absent
/// is fetched on its first resolve; once that fetch has written its file,
/// resolving it again fetches nothing, and every file cached before stays
/// cached.
pub proof fn lemma_second_resolve_uses_cache(disk: Set<Seq<char>>, icon: Seq<char>)
    requires
        !disk.contains(icon_file_name_spec(icon)),
    ensures
        needs_fetch(disk.contains(icon_file_name_spec(icon))),
        !needs_fetch(disk.insert(icon_file_name_spec(icon)).contains(icon_file_name_spec(icon))),
        forall|f: Seq<char>|
            disk.contains(f) ==> !#[trigger] needs_fetch(
                disk.insert(icon_file_name_spec(icon)).contains(f),
            ),
{
}

} // verus!
