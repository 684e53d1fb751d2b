//! Response headers for serving a stored file's bytes.
use vstd::prelude::*;
use crate::presigned::opt_view;

verus! {

/// Policy for a stored image: nothing may run, images and inline styles
/// may load.
pub const IMAGE_FILE_POLICY: &'static str =
    "default-src 'none'; style-src 'self' 'unsafe-inline'; img-src 'self' data:;";

/// Policy for a generated image preview.
pub const GENERATED_IMAGE_POLICY: &'static str = "default-src 'none'; img-src 'self' data:;";

/// Policy for anything else.
pub const DEFAULT_FILE_POLICY: &'static str =
    "script-src 'none'; object-src 'none'; base-uri 'none'; form-action 'none'";

/// The top-level type (`image` in `image/png`) that `mime` parses out of a
/// content type, if it parses.
pub uninterp spec fn mime_top_type(s: Seq<char>) -> Option<Seq<char>>;

/// Relies on `mime::Mime`'s `FromStr` and `Mime::type_`: the top-level
/// type of a content type that parses; the result depends on the text
/// alone.
#[verifier::external_body]
fn parse_top_type(s: &str) -> (r: Option<String>)
    ensures
        opt_view(r) == mime_top_type(s@),
{
    s.parse::<mime::Mime>().ok().map(|m| m.type_().as_str().to_string())
}

/// The policy served with a stored file of content type `mime`; `generated`
/// selects the one for generated previews.
pub open spec fn security_policy_spec(mime: Seq<char>, generated: bool) -> Seq<char> {
    if mime_top_type(mime) == Some("image"@) {
        if generated {
            GENERATED_IMAGE_POLICY@
        } else {
            IMAGE_FILE_POLICY@
        }
    } else {
        DEFAULT_FILE_POLICY@
    }
}

/// The content security policy for a stored file of type `mime`.
pub fn security_policy(mime: &str, generated: bool) -> (r: &'static str)
    ensures
        r@ == security_policy_spec(mime@, generated),
{
    let image = match parse_top_type(mime) {
        Some(t) => t == "image".to_owned(),
        None => false,
    };
    if image {
        if generated {
            GENERATED_IMAGE_POLICY
        } else {
            IMAGE_FILE_POLICY
        }
    } else {
        DEFAULT_FILE_POLICY
    }
}

/// The disposition of a file served as `name`: an attachment when
/// downloading, inline otherwise.
pub open spec fn disposition_spec(name: Seq<char>, download: bool) -> Seq<char> {
    (if download {
        "attachment"@
    } else {
        "inline"@
    }) + ";filename=\""@ + name + "\""@
}

/// The content disposition header for a file served as `name`.
pub fn content_disposition(name: &str, download: bool) -> (r: String)
    ensures
        r@ == disposition_spec(name@, download),
{
    let mut r = String::new();
    if download {
        r.push_str("attachment");
    } else {
        r.push_str("inline");
    }
    r.push_str(";filename=\"");
    r.push_str(name);
    r.push_str("\"");
    proof {
        let e: Seq<char> = Seq::empty();
        assert(e + "attachment"@ =~= "attachment"@);
        assert(e + "inline"@ =~= "inline"@);
    }
    r
}

} // verus!
