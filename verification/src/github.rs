//! The hosting-provider collaborator.
//!
//! Remote repositories are created and deleted over the network by the
//! unverified shell; this module owns the naming and addressing rules the
//! provider is driven with.

use vstd::prelude::*;
use vstd::string::StringExecFns;

verus! {

/// Client of the repository-hosting provider.  The optional token is what
/// the shell authenticates its API calls with; without one the shell falls
/// back to the provider's command-line tool.
pub struct GitHubClient {
    pub token: Option<String>,
}

impl GitHubClient {
    pub fn new(token: Option<String>) -> (r: Self)
        ensures
            r.token == token,
    {
        GitHubClient { token }
    }
}

/// The lowercase-hex md5 digest of a character sequence.
pub uninterp spec fn md5_hex_of(s: Seq<char>) -> Seq<char>;

/// Relies on md5::compute and the lowercase-hex rendering of its digest:
/// the result depends on the input alone, two hex digits per digest byte,
/// 32 characters in all.
#[verifier::external_body]
fn md5_hex(s: &str) -> (r: String)
    ensures
        r@ == md5_hex_of(s@),
        r@.len() == 32,
{
    format!("{:x}", md5::compute(s.as_bytes()))
}

/// The name of the remote repository backing a repository key: the md5
/// digest of the key, in lowercase hex.
pub fn hidden_repository_name(repository_key: &str) -> (r: String)
    ensures
        r@ == md5_hex_of(repository_key@),
        r@.len() == 32,
{
    md5_hex(repository_key)
}

/// The SSH URL of a hosted repository.
pub fn hosted_repository_url(org: &str, name: &str) -> (r: String)
    ensures
        r@ == "git@github.com:"@ + org@ + "/"@ + name@ + ".git"@,
{
    let mut s = String::from_str("git@github.com:");
    s.append(org);
    s.append("/");
    s.append(name);
    s.append(".git");
    s
}

/// The description recorded on a hidden repository.
pub fn hidden_repository_description(repository_key: &str) -> (r: String)
    ensures
        r@ == "Hidden repository for "@ + repository_key@,
{
    let mut s = String::from_str("Hidden repository for ");
    s.append(repository_key);
    s
}

} // verus!
