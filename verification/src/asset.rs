//! Deterministic naming of image assets: the cache file name and the remote
//! URL for a team's logo, both fixed functions of the team identifier.

use vstd::prelude::*;
use vstd::string::StringExecFns;

use crate::digits::{decimal_string, digits_of};

verus! {

/// The cache file name for a team identifier: `<id>.svg`. The unverified
/// shell resolves this name under the platform's temporary directory.
pub open spec fn file_name_of(id: nat) -> Seq<char> {
    digits_of(id) + ".svg"@
}

/// The remote URL the logo is fetched from: a fixed template with the
/// identifier interpolated.
pub open spec fn sprite_url_of(id: nat) -> Seq<char> {
    "http://www-league.nhlstatic.com/images/logos/teams-current-circle/"@ + file_name_of(id)
}

/// The cache file name for a team's logo.
pub fn sprite_file_name(id: u32) -> (name: String)
    ensures
        name@ == file_name_of(id as nat),
{
    let mut name = decimal_string(id);
    name.append(".svg");
    name
}

/// The remote URL for a team's logo.
pub fn sprite_url(id: u32) -> (url: String)
    ensures
        url@ == sprite_url_of(id as nat),
{
    let mut url = String::from_str(
        "http://www-league.nhlstatic.com/images/logos/teams-current-circle/",
    );
    let name = sprite_file_name(id);
    url.append(name.as_str());
    url
}

} // verus!
