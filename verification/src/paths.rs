use vstd::prelude::*;
use vstd::string::StrSliceExecFns;
use vstd::string::StringExecFns;

verus! {

/// `relative` appended to the directory `base`: a separator is put between
/// them unless `base` is empty or already ends in one.
pub open spec fn joined(base: Seq<char>, relative: Seq<char>) -> Seq<char> {
    if base.len() > 0 && base.last() != '/' {
        base + seq!['/'] + relative
    } else {
        base + relative
    }
}

/// Where the simulator devices are stored, for the home directory `home`.
pub open spec fn device_directory_text(home: Seq<char>) -> Seq<char> {
    joined(home, "Library/Developer/CoreSimulator/Devices/"@)
}

/// Computes the directory that holds the simulator devices' data.
pub fn device_directory(home: &str) -> (directory: String)
    ensures
        directory@ == device_directory_text(home@),
{
    let n: usize = home.unicode_len();
    let mut directory = String::from_str(home);
    if n > 0 && home.get_char(n - 1) != '/' {
        proof {
            reveal_strlit("/");
            assert("/"@ =~= seq!['/']);
        }
        directory.append("/");
    }
    directory.append("Library/Developer/CoreSimulator/Devices/");
    directory
}

/// `dirs::home_dir`, as text. Nothing is claimed of the result: it depends
/// on the environment and on the user database, and is absent where no home
/// directory is known or its path is not valid Unicode.
#[verifier::external_body]
fn home_directory() -> (home: Option<String>) {
    match dirs::home_dir() {
        Some(path) => path.into_os_string().into_string().ok(),
        None => None,
    }
}

/// Finds the directory that holds the simulator devices' data under the
/// current user's home directory, where one is known.
pub fn locate_device_directory() -> (directory: Option<String>)
    ensures
        directory matches Some(found) ==> exists|home: Seq<char>|
            found@ == device_directory_text(home),
{
    device_directory_under(home_directory())
}

/// The directory that holds the simulator devices' data, given the home
/// directory as it was found: none where no home directory is known, and
/// otherwise the device directory of that home.
pub fn device_directory_under(home: Option<String>) -> (directory: Option<String>)
    ensures
        home is None ==> directory is None,
        home matches Some(known) ==> directory matches Some(found) && found@
            == device_directory_text(known@),
{
    match home {
        Some(known) => Some(device_directory(known.as_str())),
        None => None,
    }
}

} // verus!
