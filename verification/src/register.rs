//! Custom game registration: building a catalog record for an executable
//! the user points at. The caller performs the existence check for the path
//! and hands the result in.

use vstd::prelude::*;
use crate::game::GameInfo;
use crate::text::{parent_dir, parent_of, slug_seq, slugify};

verus! {

/// Why a registration request was rejected.
#[derive(Debug, PartialEq, Eq, Structural)]
pub enum RegistrationError {
    /// The supplied executable path does not exist.
    NotFound,
}

/// Registers a custom game. Fails with `NotFound` when the executable path
/// does not exist; otherwise returns a record whose id is the slug of the
/// name, marked installed, on the custom platform, with the install path
/// derived as the executable's parent directory and an empty artwork
/// reference. The record is not added to any catalog; the caller keeps it.
pub fn add_custom_game(
    name: String,
    executable_path: String,
    category: String,
    path_exists: bool,
) -> (r: Result<GameInfo, RegistrationError>)
    ensures
        !path_exists ==> r == Err::<GameInfo, RegistrationError>(RegistrationError::NotFound),
        path_exists ==> r is Ok && ({
            let g = r.unwrap()@;
            g.id == slug_seq(name@) && g.name == name@ && g.category == category@
                && g.executable_path == Some(executable_path@) && g.install_path == parent_of(
                executable_path@,
            ) && g.is_installed == true && g.platform == "custom"@ && g.image_url
                == Seq::<char>::empty()
        }),
{
    if !path_exists {
        return Err(RegistrationError::NotFound);
    }
    let id = slugify(name.as_str());
    let install_path = parent_dir(executable_path.as_str());
    Ok(
        GameInfo {
            id,
            name,
            category,
            executable_path: Some(executable_path),
            install_path,
            is_installed: true,
            platform: String::from_str("custom"),
            image_url: String::new(),
        },
    )
}

} // verus!
