//! Where a person's character images live: the path under the image
//! provider, and the full URL given the provider's base address (configured
//! at startup and passed in by the caller).

use vstd::prelude::*;
use vstd::string::StringExecFns;
use crate::text::{dec_i32_of, i32_to_string};

verus! {

/// The provider-relative path of an account's image in a format.
pub fn get_mii_img_url_path(pid: i32, format: &str) -> (r: String)
    ensures
        r@ == dec_i32_of(pid as int) + "/main."@ + format@,
{
    let mut out = i32_to_string(pid);
    out.append("/main.");
    out.append(format);
    out
}

/// The full URL of an account's image in a format, under the given provider
/// base address.
pub fn get_mii_img_url(base: &str, pid: i32, format: &str) -> (r: String)
    ensures
        r@ == base@ + "/"@ + dec_i32_of(pid as int) + "/main."@ + format@,
{
    let mut out = String::from_str(base);
    out.append("/");
    let path = get_mii_img_url_path(pid, format);
    out.append(path.as_str());
    proof {
        assert(out@ =~= base@ + "/"@ + dec_i32_of(pid as int) + "/main."@ + format@);
    }
    out
}

} // verus!
