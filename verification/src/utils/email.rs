//! The text of the account e-mails.

use vstd::prelude::*;
use crate::text::{replace, replace_all};

verus! {

/// The placeholder of a template that the token replaces.
pub open spec fn token_placeholder() -> Seq<char> {
    "{{token}}"@
}

/// An e-mail template with every `{{token}}` replaced by the token.
pub fn render_template(template: &str, token: &str) -> (r: String)
    ensures
        r@ == replace_all(template@, token_placeholder(), token@),
{
    proof {
        reveal_strlit("{{token}}");
    }
    replace(template, "{{token}}", token)
}

} // verus!
