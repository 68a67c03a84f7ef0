//! Address of the remote revision source for a named channel.

use vstd::prelude::*;
use vstd::string::StringExecFns;

verus! {

/// The URL that announces the latest revision of the named channel: the
/// channel name inserted verbatim between the fixed prefix and suffix.
pub fn channel_url(channel: &str) -> (r: String)
    ensures
        r@ == "https://nixos.org/channels/"@ + channel@ + "/git-revision"@,
{
    let mut url = "https://nixos.org/channels/".to_owned();
    url.append(channel);
    url.append("/git-revision");
    url
}

} // verus!
