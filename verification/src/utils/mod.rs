//! What the rest of the crate shares: errors, text, the registry of remote
//! workers, and the words that the program greets with.

pub mod args;
pub mod configs;
pub mod error;
pub mod shared;
pub mod status;
pub mod text;

use crate::utils::text::padded;
use crate::utils::text::push_padded;
use crate::utils::text::push_repeated;
use crate::utils::text::repeated;
use vstd::prelude::*;
use vstd::string::StringExecFns;

verus! {

/// The name of the package.
pub const NAME: &'static str = "protot";

/// The version of the package.
pub const VERSION: &'static str = "0.1.0";

/// The authors of the package.
pub const AUTHORS: &'static str = "";

/// What the package is, in a line.
pub const DESCRIPTION: &'static str = "";

/// Where the sources of the package are kept.
pub const REPOSITORY: &'static str = "";

/// The logo.
pub open spec fn ascii_logo() -> Seq<char> {
    "
                             
    _____         _       _____ 
   |  _  |___ ___| |_ ___|_   _|
   |   __|  _| . |  _| . | | |  
   |__|  |_| |___|_| |___| |_|  
                                
   "@
}

/// The logo that the program shows when it starts.
pub fn get_ascii_logo() -> (r: String)
    ensures
        r@ == ascii_logo(),
{
    String::from_str(
        "
                             
    _____         _       _____ 
   |  _  |___ ___| |_ ___|_   _|
   |   __|  _| . |  _| . | | |  
   |__|  |_| |___|_| |___| |_|  
                                
   ",
    )
}

/// One line of the table of the package: the key in a column of sixteen
/// characters, the value, and the end of the line.
pub open spec fn metadata_line(key: Seq<char>, value: Seq<char>) -> Seq<char> {
    padded(key, 16) + value + seq!['\n']
}

/// The table of the package between two rules of sixty equals signs.
pub open spec fn protot_metadata() -> Seq<char> {
    repeated('=', 60) + seq!['\n'] + metadata_line("Application"@, NAME@) + metadata_line(
        "Version"@,
        VERSION@,
    ) + metadata_line("Authors"@, AUTHORS@) + metadata_line("Description"@, DESCRIPTION@)
        + metadata_line("Github"@, REPOSITORY@) + repeated('=', 60)
}

/// Appends one line of the table to `out`.
fn push_metadata_line(out: &mut String, key: &str, value: &str)
    ensures
        final(out)@ == old(out)@ + metadata_line(key@, value@),
{
    push_padded(out, key, 16);
    out.append(value);
    proof {
        reveal_strlit("\n");
    }
    out.append("\n");
    assert(out@ =~= old(out)@ + metadata_line(key@, value@));
}

/// What the program says about itself when it starts: the name, the
/// version, the authors, the description and the repository of the
/// package, one to a line, between two rules.
pub fn get_protot_metadata() -> (r: String)
    ensures
        r@ == protot_metadata(),
{
    let mut formatted_metadata = String::new();
    proof {
        reveal_strlit("=");
        reveal_strlit("\n");
    }
    push_repeated(&mut formatted_metadata, "=", 60);
    formatted_metadata.append("\n");
    push_metadata_line(&mut formatted_metadata, "Application", NAME);
    push_metadata_line(&mut formatted_metadata, "Version", VERSION);
    push_metadata_line(&mut formatted_metadata, "Authors", AUTHORS);
    push_metadata_line(&mut formatted_metadata, "Description", DESCRIPTION);
    push_metadata_line(&mut formatted_metadata, "Github", REPOSITORY);
    push_repeated(&mut formatted_metadata, "=", 60);
    assert(formatted_metadata@ =~= protot_metadata());
    formatted_metadata
}

} // verus!
